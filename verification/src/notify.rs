//! Transient notifications shown in the interface.
//!
//! Notifications expire after a per-level duration.  The library keeps no
//! clock of its own: callers pass the current time in milliseconds, as
//! measured on whatever monotonic clock they use.

use vstd::prelude::*;

verus! {

/// How long an informational notification is shown, in milliseconds.
pub const INFO_NOTIFICATION_MS: u64 = 2000;

/// How long a warning is shown, in milliseconds.
pub const WARNING_NOTIFICATION_MS: u64 = 3000;

/// How long an error is shown, in milliseconds.
pub const ERROR_NOTIFICATION_MS: u64 = 4000;

/// Severity of a notification.
#[derive(Debug, Clone, Copy, PartialEq, Eq, Structural)]
pub enum NotificationLevel {
    Debug,
    Info,
    Warning,
    Error,
}

impl NotificationLevel {
    /// The icon-and-word prefix a notification of this level is shown
    /// with.
    pub fn prefix(&self) -> (r: &'static str)
        ensures
            r@ == (match *self {
                NotificationLevel::Debug => "\u{f02a4} DEBUG"@,
                NotificationLevel::Info => "\u{f02fc} INFO"@,
                NotificationLevel::Warning => "\u{f002a} WARN"@,
                NotificationLevel::Error => "\u{f015a} ERROR"@,
            }),
    {
        match self {
            NotificationLevel::Debug => "\u{f02a4} DEBUG",
            NotificationLevel::Info => "\u{f02fc} INFO",
            NotificationLevel::Warning => "\u{f002a} WARN",
            NotificationLevel::Error => "\u{f015a} ERROR",
        }
    }
}

/// One notification: its level, its text, when it was created and how
/// long it lives.
#[derive(Debug)]
pub struct Notification {
    pub level: NotificationLevel,
    pub text: String,
    pub created_at_ms: u64,
    pub duration_ms: u64,
}

impl Clone for Notification {
    fn clone(&self) -> (r: Notification)
        ensures
            r == *self,
    {
        Notification {
            level: self.level,
            text: self.text.clone(),
            created_at_ms: self.created_at_ms,
            duration_ms: self.duration_ms,
        }
    }
}

impl Notification {
    /// A notification created at `created_at_ms` that lives for
    /// `duration_ms`.
    pub fn new(level: NotificationLevel, text: String, created_at_ms: u64, duration_ms: u64) -> (r:
        Notification)
        ensures
            r.level == level,
            r.text == text,
            r.created_at_ms == created_at_ms,
            r.duration_ms == duration_ms,
    {
        Notification { level, text, created_at_ms, duration_ms }
    }

    /// Whether the notification has outlived its duration at time
    /// `now_ms`.
    pub fn is_expired(&self, now_ms: u64) -> (r: bool)
        ensures
            r == spec_expired(self, now_ms as int),
    {
        now_ms >= self.created_at_ms && now_ms - self.created_at_ms >= self.duration_ms
    }
}

/// Whether a notification is expired at a given time.
pub open spec fn spec_expired(n: &Notification, now_ms: int) -> bool {
    now_ms - n.created_at_ms >= n.duration_ms
}

/// The predicate that keeps a notification alive at a given time.
pub open spec fn spec_live_pred(now_ms: int) -> spec_fn(Notification) -> bool {
    |n: Notification| !spec_expired(&n, now_ms)
}

/// The queue of live notifications.
#[derive(Debug)]
pub struct NotificationManager {
    notifications: Vec<Notification>,
}

impl View for NotificationManager {
    type V = Seq<Notification>;

    closed spec fn view(&self) -> Seq<Notification> {
        self.notifications@
    }
}

impl NotificationManager {
    /// An empty queue.
    pub fn new() -> (r: NotificationManager)
        ensures
            r@.len() == 0,
    {
        NotificationManager { notifications: Vec::new() }
    }

    /// Adds a notification created now.
    pub fn notify(&mut self, level: NotificationLevel, text: String, now_ms: u64, duration_ms: u64)
        ensures
            final(self)@.len() == old(self)@.len() + 1,
            final(self)@.take(old(self)@.len() as int) == old(self)@,
            final(self)@.last() == (Notification {
                level,
                text,
                created_at_ms: now_ms,
                duration_ms,
            }),
    {
        self.notifications.push(Notification::new(level, text, now_ms, duration_ms));
        proof {
            assert(final(self)@.take(old(self)@.len() as int) =~= old(self)@);
        }
    }

    /// Adds a debug notification with the standard short duration.
    pub fn debug(&mut self, text: String, now_ms: u64)
        ensures
            final(self)@.len() == old(self)@.len() + 1,
            final(self)@.take(old(self)@.len() as int) == old(self)@,
            final(self)@.last() == (Notification {
                level: NotificationLevel::Debug,
                text,
                created_at_ms: now_ms,
                duration_ms: INFO_NOTIFICATION_MS,
            }),
    {
        self.notify(NotificationLevel::Debug, text, now_ms, INFO_NOTIFICATION_MS);
    }

    /// Adds an informational notification with the standard short
    /// duration.
    pub fn info(&mut self, text: String, now_ms: u64)
        ensures
            final(self)@.len() == old(self)@.len() + 1,
            final(self)@.take(old(self)@.len() as int) == old(self)@,
            final(self)@.last() == (Notification {
                level: NotificationLevel::Info,
                text,
                created_at_ms: now_ms,
                duration_ms: INFO_NOTIFICATION_MS,
            }),
    {
        self.notify(NotificationLevel::Info, text, now_ms, INFO_NOTIFICATION_MS);
    }

    /// Adds a warning with its longer duration.
    pub fn warning(&mut self, text: String, now_ms: u64)
        ensures
            final(self)@.len() == old(self)@.len() + 1,
            final(self)@.take(old(self)@.len() as int) == old(self)@,
            final(self)@.last() == (Notification {
                level: NotificationLevel::Warning,
                text,
                created_at_ms: now_ms,
                duration_ms: WARNING_NOTIFICATION_MS,
            }),
    {
        self.notify(NotificationLevel::Warning, text, now_ms, WARNING_NOTIFICATION_MS);
    }

    /// Adds an error with the longest duration.
    pub fn error(&mut self, text: String, now_ms: u64)
        ensures
            final(self)@.len() == old(self)@.len() + 1,
            final(self)@.take(old(self)@.len() as int) == old(self)@,
            final(self)@.last() == (Notification {
                level: NotificationLevel::Error,
                text,
                created_at_ms: now_ms,
                duration_ms: ERROR_NOTIFICATION_MS,
            }),
    {
        self.notify(NotificationLevel::Error, text, now_ms, ERROR_NOTIFICATION_MS);
    }

    /// Drops every notification that has expired by `now_ms`, keeping
    /// the rest in order.
    pub fn tick(&mut self, now_ms: u64)
        ensures
            final(self)@ == old(self)@.filter(spec_live_pred(now_ms as int)),
    {
        let ghost pred = spec_live_pred(now_ms as int);
        let mut kept: Vec<Notification> = Vec::new();
        let n = self.notifications.len();
        for i in 0..n
            invariant
                n == self.notifications@.len(),
                pred == spec_live_pred(now_ms as int),
                kept@ == self.notifications@.take(i as int).filter(pred),
        {
            proof {
                reveal_with_fuel(Seq::filter, 2);
                assert(self.notifications@.take(i + 1).drop_last() =~= self.notifications@.take(
                    i as int,
                ));
                assert(self.notifications@.take(i + 1).last() == self.notifications@[i as int]);
            }
            if !self.notifications[i].is_expired(now_ms) {
                kept.push(self.notifications[i].clone());
                proof {
                    assert(kept@ =~= self.notifications@.take(i + 1).filter(pred));
                }
            } else {
                proof {
                    assert(kept@ =~= self.notifications@.take(i + 1).filter(pred));
                }
            }
        }
        proof {
            assert(self.notifications@.take(n as int) =~= self.notifications@);
        }
        self.notifications = kept;
    }

    /// The live notifications, oldest first.
    pub fn active_notifications(&self) -> (r: &Vec<Notification>)
        ensures
            r@ == self@,
    {
        &self.notifications
    }
}

} // verus!
