//! Notifications: a bounded queue of timed messages, owned by the
//! application state and passed by reference to whatever needs to emit or
//! render them.
use vstd::prelude::*;

verus! {

/// At most this many notifications are kept; adding to a full queue drops
/// the oldest.
pub const MAX_NOTIFICATIONS: usize = 5;

/// How long a notification stays visible, in milliseconds.
pub const NOTIFICATION_LIFETIME_MS: u64 = 5000;

/// The severity of a notification.
#[derive(PartialEq, Eq, Clone, Copy, Debug, Structural)]
pub enum NotificationType {
    Info,
    Warning,
    Error,
}

/// One message with its severity and the time it was created, in
/// milliseconds of some monotonic clock supplied by the caller.
pub struct Notification {
    pub message: String,
    pub ntype: NotificationType,
    pub created_at: u64,
}

/// Whether a notification is still young enough to stay visible at `now`.
pub open spec fn still_fresh(n: Notification, now: u64) -> bool {
    now <= n.created_at || now - n.created_at < NOTIFICATION_LIFETIME_MS
}

/// The notifications that survive a purge at `now`, in order.
pub open spec fn fresh_filter(s: Seq<Notification>, now: u64) -> Seq<Notification>
    decreases s.len(),
{
    if s.len() == 0 {
        Seq::<Notification>::empty()
    } else {
        let rest = fresh_filter(s.drop_last(), now);
        if still_fresh(s.last(), now) {
            rest.push(s.last())
        } else {
            rest
        }
    }
}

/// The bounded notification queue.
pub struct NotificationManager {
    pub notifications: Vec<Notification>,
}

impl NotificationManager {
    pub fn new() -> (r: NotificationManager)
        ensures
            r.notifications@.len() == 0,
    {
        NotificationManager { notifications: Vec::new() }
    }

    /// Appends a notification; a full queue first drops its oldest entry.
    pub fn add(&mut self, message: String, ntype: NotificationType, now: u64)
        ensures
            final(self).notifications@ == (if old(self).notifications@.len()
                >= MAX_NOTIFICATIONS {
                old(self).notifications@.drop_first()
            } else {
                old(self).notifications@
            }).push((Notification { message, ntype, created_at: now })),
            old(self).notifications@.len() <= MAX_NOTIFICATIONS ==> final(
                self).notifications@.len() <= MAX_NOTIFICATIONS,
    {
        if self.notifications.len() >= MAX_NOTIFICATIONS {
            self.notifications.remove(0);
            proof {
                assert(self.notifications@ =~= old(self).notifications@.drop_first());
            }
        }
        self.notifications.push(Notification { message, ntype, created_at: now });
    }

    /// Drops every notification older than the lifetime.
    pub fn purge_old(&mut self, now: u64)
        ensures
            final(self).notifications@ == fresh_filter(old(self).notifications@, now),
    {
        let ghost orig: Seq<Notification> = self.notifications@;
        let mut kept: Vec<Notification> = Vec::new();
        let len = self.notifications.len();
        let mut i: usize = 0;
        while i < len
            invariant
                i <= len,
                len == orig.len(),
                self.notifications@ == orig.skip(i as int),
                kept@ == fresh_filter(orig.take(i as int), now),
            decreases len - i,
        {
            let n = self.notifications.remove(0);
            proof {
                assert(orig.skip(i as int).remove(0) =~= orig.skip(i as int + 1));
            }
            let fresh = now <= n.created_at || now - n.created_at < NOTIFICATION_LIFETIME_MS;
            if fresh {
                kept.push(n);
            }
            proof {
                assert(orig.take(i as int + 1).drop_last() =~= orig.take(i as int));
                assert(orig.take(i as int + 1).last() == orig[i as int]);
            }
            i += 1;
        }
        proof {
            assert(orig.take(len as int) =~= orig);
        }
        self.notifications = kept;
    }
}

} // verus!
