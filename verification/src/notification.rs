use vstd::prelude::*;

verus! {

/// A stored announcement. Timestamps are seconds since the Unix epoch.
#[derive(Clone, Debug)]
pub struct Notification {
    pub id: i64,
    pub title: String,
    pub content: String,
    pub priority: String,
    pub author_id: i64,
    pub is_published: bool,
    pub created_at: i64,
    pub updated_at: i64,
}

/// A request to post an announcement; priority defaults to medium and
/// visibility to published.
#[derive(Clone, Debug)]
pub struct CreateNotificationRequest {
    pub title: String,
    pub content: String,
    pub priority: Option<String>,
    pub is_published: Option<bool>,
}

/// A partial update to an announcement.
#[derive(Clone, Debug)]
pub struct UpdateNotificationRequest {
    pub title: Option<String>,
    pub content: Option<String>,
    pub priority: Option<String>,
    pub is_published: Option<bool>,
}

/// An attachment record belonging to an announcement.
#[derive(Clone, Debug)]
pub struct Attachment {
    pub id: i64,
    pub notification_id: Option<i64>,
    pub filename: String,
    pub original_filename: String,
    pub file_path: String,
    pub file_size: i64,
    pub mime_type: String,
    pub uploaded_at: i64,
}

/// The public view of an attachment; the storage path stays private.
#[derive(Clone, Debug)]
pub struct AttachmentResponse {
    pub id: i64,
    pub notification_id: Option<i64>,
    pub filename: String,
    pub original_filename: String,
    pub file_size: i64,
    pub mime_type: String,
    pub uploaded_at: i64,
}

/// The public view of an attachment.
pub open spec fn attachment_view(a: Attachment) -> AttachmentResponse {
    AttachmentResponse {
        id: a.id,
        notification_id: a.notification_id,
        filename: a.filename,
        original_filename: a.original_filename,
        file_size: a.file_size,
        mime_type: a.mime_type,
        uploaded_at: a.uploaded_at,
    }
}

impl From<Attachment> for AttachmentResponse {
    fn from(attachment: Attachment) -> (r: AttachmentResponse) {
        AttachmentResponse {
            id: attachment.id,
            notification_id: attachment.notification_id,
            filename: attachment.filename,
            original_filename: attachment.original_filename,
            file_size: attachment.file_size,
            mime_type: attachment.mime_type,
            uploaded_at: attachment.uploaded_at,
        }
    }
}

impl vstd::std_specs::convert::FromSpecImpl<Attachment> for AttachmentResponse {
    open spec fn obeys_from_spec() -> bool {
        true
    }

    open spec fn from_spec(attachment: Attachment) -> AttachmentResponse {
        attachment_view(attachment)
    }
}

/// The public view of an announcement, joined with its author's username
/// when the author still exists.
#[derive(Clone, Debug)]
pub struct NotificationResponse {
    pub id: i64,
    pub title: String,
    pub content: String,
    pub priority: String,
    pub author_id: i64,
    pub author_username: Option<String>,
    pub is_published: bool,
    pub created_at: i64,
    pub updated_at: i64,
    pub attachments: Vec<AttachmentResponse>,
}

/// Listing parameters; pages are one-based.
#[derive(Clone, Debug)]
pub struct NotificationQuery {
    pub page: Option<u32>,
    pub per_page: Option<u32>,
    pub priority: Option<String>,
    pub search: Option<String>,
}

/// One page of published announcements, newest first, with the paging
/// figures the listing was answered under.
#[derive(Clone, Debug)]
pub struct NotificationListResponse {
    pub notifications: Vec<NotificationResponse>,
    pub total: i64,
    pub pages: u32,
    pub current_page: u32,
    pub per_page: u32,
}

/// The published announcements in newest-first (reverse insertion) order.
pub open spec fn published_desc(items: Seq<Notification>) -> Seq<Notification>
    decreases items.len(),
{
    if items.len() == 0 {
        Seq::empty()
    } else if items.last().is_published {
        seq![items.last()] + published_desc(items.drop_last())
    } else {
        published_desc(items.drop_last())
    }
}

/// Whether a published announcement with this identifier exists.
pub open spec fn has_published_id(items: Seq<Notification>, id: i64) -> bool {
    exists|i: int|
        0 <= i < items.len() && (#[trigger] items[i]).id == id && items[i].is_published
}

/// The announcement store: records in creation order with increasing
/// identifiers.
pub struct NotificationStore {
    pub items: Vec<Notification>,
    pub next_id: i64,
}

impl NotificationStore {
    /// Store invariant: identifiers are positive, increase with position,
    /// and stay below the next free one; creation timestamps never decrease
    /// with position, so newest-by-position is also newest-by-creation-time.
    pub open spec fn wf(&self) -> bool {
        &&& forall|i: int, j: int|
            0 <= i < j < self.items@.len() ==> (#[trigger] self.items@[i]).id < (
            #[trigger] self.items@[j]).id
        &&& forall|i: int, j: int|
            0 <= i < j < self.items@.len() ==> (#[trigger] self.items@[i]).created_at <= (
            #[trigger] self.items@[j]).created_at
        &&& forall|i: int|
            0 <= i < self.items@.len() ==> 1 <= (#[trigger] self.items@[i]).id < self.next_id
        &&& self.next_id >= 1
    }

    /// The creation timestamp a record added at clock reading `now` gets: a
    /// reading older than the newest record is raised to it, so that the
    /// listing order stays well defined even under a clock step backwards.
    pub open spec fn stamp_of(items: Seq<Notification>, now: i64) -> i64 {
        if items.len() == 0 || now >= items.last().created_at {
            now
        } else {
            items.last().created_at
        }
    }

    pub fn new() -> (r: NotificationStore)
        ensures
            r.wf(),
            r.items@.len() == 0,
            r.next_id == 1,
    {
        NotificationStore { items: Vec::new(), next_id: 1 }
    }

    /// In a store whose identifiers increase with position, the identifier
    /// at each position is at least the position plus one, so the store can
    /// never hold more records than the identifier type has values.
    pub proof fn lemma_id_bounds_len(&self, i: int)
        requires
            self.wf(),
            0 <= i < self.items@.len(),
        ensures
            self.items@[i].id >= i + 1,
        decreases i,
    {
        if i > 0 {
            self.lemma_id_bounds_len(i - 1);
        }
    }

    /// Finds the published record holding an identifier.
    pub fn lookup_published(&self, id: i64) -> (r: Option<usize>)
        ensures
            r matches Some(i) ==> i < self.items@.len() && self.items@[i as int].id == id
                && self.items@[i as int].is_published,
            r is Some <==> has_published_id(self.items@, id),
    {
        let n = self.items.len();
        let mut i: usize = 0;
        while i < n
            invariant
                0 <= i <= n,
                n == self.items@.len(),
                forall|j: int|
                    0 <= j < i ==> !((#[trigger] self.items@[j]).id == id
                        && self.items@[j].is_published),
            decreases n - i,
        {
            if self.items[i].id == id && self.items[i].is_published {
                return Some(i);
            }
            i = i + 1;
        }
        None
    }

    /// Adds a record and returns its position; fails exactly when the
    /// identifier space is exhausted. The record is stamped with the clock
    /// reading, raised to the newest stored timestamp if the clock stepped
    /// backwards.
    pub fn add_notification(
        &mut self,
        title: String,
        content: String,
        priority: String,
        author_id: i64,
        is_published: bool,
        now: i64,
    ) -> (r: Result<usize, crate::errors::AuthError>)
        requires
            old(self).wf(),
        ensures
            final(self).wf(),
            r is Ok <==> old(self).next_id < i64::MAX,
            r matches Err(e) ==> e == crate::errors::AuthError::Internal && *final(self) == *old(
                self,
            ),
            r matches Ok(i) ==> {
                &&& i == old(self).items@.len()
                &&& final(self).items@ == old(self).items@.push(final(self).items@[i as int])
                &&& final(self).items@[i as int] == (Notification {
                    id: old(self).next_id,
                    title: title,
                    content: content,
                    priority: priority,
                    author_id: author_id,
                    is_published: is_published,
                    created_at: Self::stamp_of(old(self).items@, now),
                    updated_at: Self::stamp_of(old(self).items@, now),
                })
            },
    {
        if self.next_id == i64::MAX {
            return Err(crate::errors::AuthError::Internal);
        }
        let id = self.next_id;
        let n = self.items.len();
        let stamp: i64 = if n == 0 || now >= self.items[n - 1].created_at {
            now
        } else {
            self.items[n - 1].created_at
        };
        let item = Notification {
            id,
            title,
            content,
            priority,
            author_id,
            is_published,
            created_at: stamp,
            updated_at: stamp,
        };
        self.items.push(item);
        self.next_id = id + 1;
        Ok(n)
    }

    /// In a store whose creation timestamps never decrease with position,
    /// the newest-first published list carries them in nonincreasing order,
    /// and none of them exceeds the newest record's timestamp.
    pub proof fn lemma_published_desc_sorted(items: Seq<Notification>)
        requires
            forall|i: int, j: int|
                0 <= i < j < items.len() ==> (#[trigger] items[i]).created_at <= (
                #[trigger] items[j]).created_at,
        ensures
            forall|k1: int, k2: int|
                0 <= k1 < k2 < published_desc(items).len() ==> (#[trigger] published_desc(
                    items,
                )[k1]).created_at >= (#[trigger] published_desc(items)[k2]).created_at,
            items.len() > 0 ==> forall|k: int|
                0 <= k < published_desc(items).len() ==> (#[trigger] published_desc(
                    items,
                )[k]).created_at <= items.last().created_at,
        decreases items.len(),
    {
        if items.len() > 0 {
            let rest = items.drop_last();
            assert(forall|i: int|
                0 <= i < rest.len() ==> #[trigger] rest[i] == items[i]);
            Self::lemma_published_desc_sorted(rest);
            let f = published_desc(items);
            let fr = published_desc(rest);
            if rest.len() == 0 {
                assert(fr.len() == 0);
            }
            if items.last().is_published {
                assert(f == seq![items.last()] + fr);
                assert forall|k: int|
                    0 <= k < f.len() implies (#[trigger] f[k]).created_at
                    <= items.last().created_at by {
                    if k >= 1 {
                        assert(f[k] == fr[k - 1]);
                        assert(rest.last() == items[items.len() - 2]);
                        assert(rest.last().created_at <= items.last().created_at);
                    }
                }
                assert forall|k1: int, k2: int|
                    0 <= k1 < k2 < f.len() implies (#[trigger] f[k1]).created_at >= (
                #[trigger] f[k2]).created_at by {
                    if k1 >= 1 {
                        assert(f[k1] == fr[k1 - 1]);
                        assert(f[k2] == fr[k2 - 1]);
                    } else {
                        assert(f[k2] == fr[k2 - 1]);
                        assert(rest.last() == items[items.len() - 2]);
                        assert(rest.last().created_at <= items.last().created_at);
                    }
                }
            } else {
                assert(f == fr);
                if rest.len() > 0 {
                    assert(rest.last() == items[items.len() - 2]);
                    assert(rest.last().created_at <= items.last().created_at);
                    assert forall|k: int|
                        0 <= k < f.len() implies (#[trigger] f[k]).created_at
                        <= items.last().created_at by {
                        assert(fr[k].created_at <= rest.last().created_at);
                    }
                }
            }
        }
    }

    /// The positions of the published records, newest first.
    pub fn published_indexes_desc(&self) -> (r: Vec<usize>)
        ensures
            r@.len() == published_desc(self.items@).len(),
            forall|k: int|
                0 <= k < r@.len() ==> (#[trigger] r@[k]) < self.items@.len()
                    && self.items@[r@[k] as int] == published_desc(self.items@)[k],
    {
        let ghost full = published_desc(self.items@);
        let mut idxs: Vec<usize> = Vec::new();
        let mut i: usize = self.items.len();
        proof {
            assert(self.items@.subrange(0, i as int) =~= self.items@);
        }
        while i > 0
            invariant
                0 <= i <= self.items@.len(),
                full == published_desc(self.items@),
                full.skip(idxs@.len() as int) == published_desc(
                    self.items@.subrange(0, i as int),
                ),
                idxs@.len() <= full.len(),
                forall|k: int|
                    0 <= k < idxs@.len() ==> (#[trigger] idxs@[k]) < self.items@.len()
                        && self.items@[idxs@[k] as int] == full[k],
            decreases i,
        {
            let ghost prev = self.items@.subrange(0, i as int);
            proof {
                assert(prev.drop_last() =~= self.items@.subrange(0, i as int - 1));
                assert(prev.last() == self.items@[i as int - 1]);
            }
            if self.items[i - 1].is_published {
                proof {
                    let n = idxs@.len() as int;
                    assert(full.skip(n) == seq![self.items@[i as int - 1]] + published_desc(
                        self.items@.subrange(0, i as int - 1),
                    ));
                    let t = published_desc(self.items@.subrange(0, i as int - 1));
                    assert(full.skip(n).len() >= 1);
                    assert(full[n] == full.skip(n)[0]);
                    assert forall|j: int| 0 <= j < t.len() implies full.skip(n + 1)[j] == t[j] by {
                        assert(full.skip(n + 1)[j] == full[n + 1 + j]);
                        assert(full.skip(n)[j + 1] == full[n + j + 1]);
                        assert(full.skip(n)[j + 1] == (seq![self.items@[i as int - 1]] + t)[j + 1]);
                    }
                    assert(full.skip(n + 1) =~= t);
                }
                idxs.push(i - 1);
            }
            i = i - 1;
        }
        proof {
            assert(self.items@.subrange(0, 0) =~= Seq::<Notification>::empty());
            assert(full.skip(idxs@.len() as int) =~= Seq::<Notification>::empty());
        }
        idxs
    }
}

} // verus!
