//! Login accounting records: who is logged in, and when the host booted.

use crate::text::{decimal, push_decimal};
use vstd::prelude::*;
use vstd::string::StringExecFns;

verus! {

/// What an accounting record stands for, as far as the report cares.
#[derive(Clone, Copy, Debug, PartialEq, Eq, Structural)]
pub enum RecordKind {
    /// A login session that is still open.
    UserProcess,
    /// The moment the host was started.
    BootTime,
    /// Any other entry; it is passed over.
    Other,
}

/// One entry of the accounting store, with what the report reads of it: for
/// a boot entry the time it carries, in seconds since the epoch.
#[derive(Clone, Copy, Debug, PartialEq, Eq, Structural)]
pub enum SessionRecord {
    /// A login session that is still open.
    UserProcess,
    /// The host was started at `login_time`.
    BootTime { login_time: i64 },
    /// Any other entry.
    Other,
}

/// The kind behind a record's type tag on a platform whose tags for open
/// sessions and for the boot entry are `user_process` and `boot_time`.
pub open spec fn kind_of_tag(tag: i16, user_process: i16, boot_time: i16) -> RecordKind {
    if tag == user_process {
        RecordKind::UserProcess
    } else if tag == boot_time {
        RecordKind::BootTime
    } else {
        RecordKind::Other
    }
}

impl RecordKind {
    /// Reads a record's type tag. A tag that is neither of the two given ones
    /// is `Other`, whatever its value.
    pub fn from_tag(tag: i16, user_process: i16, boot_time: i16) -> (kind: RecordKind)
        ensures
            kind == kind_of_tag(tag, user_process, boot_time),
    {
        if tag == user_process {
            RecordKind::UserProcess
        } else if tag == boot_time {
            RecordKind::BootTime
        } else {
            RecordKind::Other
        }
    }
}

impl SessionRecord {
    /// The kind of this record.
    pub open spec fn kind_of(&self) -> RecordKind {
        match self {
            SessionRecord::UserProcess => RecordKind::UserProcess,
            SessionRecord::BootTime { .. } => RecordKind::BootTime,
            SessionRecord::Other => RecordKind::Other,
        }
    }

    /// This record counts as one logged-in user.
    pub open spec fn is_user(&self) -> bool {
        self is UserProcess
    }

    /// The time that a boot entry carries; zero for any other record.
    pub open spec fn boot_seconds(&self) -> i64 {
        match self {
            SessionRecord::BootTime { login_time } => *login_time,
            _ => 0,
        }
    }

    /// This record tells the boot time: it is a boot entry and its time is
    /// after the epoch.
    pub open spec fn tells_boot(&self) -> bool {
        self is BootTime && self.boot_seconds() > 0
    }

    /// The kind of this record.
    pub fn kind(&self) -> (kind: RecordKind)
        ensures
            kind == self.kind_of(),
    {
        match self {
            SessionRecord::UserProcess => RecordKind::UserProcess,
            SessionRecord::BootTime { .. } => RecordKind::BootTime,
            SessionRecord::Other => RecordKind::Other,
        }
    }
}

/// How many of `records` are open login sessions.
pub open spec fn user_count(records: Seq<SessionRecord>) -> nat
    decreases records.len(),
{
    if records.len() == 0 {
        0
    } else if records.last().is_user() {
        user_count(records.drop_last()) + 1
    } else {
        user_count(records.drop_last())
    }
}

/// The boot time that `records` tell: that of the last record that tells
/// one, or nothing where none does.
pub open spec fn boot_time(records: Seq<SessionRecord>) -> Option<i64>
    decreases records.len(),
{
    if records.len() == 0 {
        None
    } else if records.last().tells_boot() {
        Some(records.last().boot_seconds())
    } else {
        boot_time(records.drop_last())
    }
}

/// Scans the accounting records in order and returns the boot time they tell
/// and the number of users logged in.
pub fn process_utmpx(records: &Vec<SessionRecord>) -> (found: (Option<i64>, usize))
    ensures
        found.0 == boot_time(records@),
        found.1 == user_count(records@),
{
    let mut nusers: usize = 0;
    let mut boot: Option<i64> = None;
    let mut at: usize = 0;
    while at < records.len()
        invariant
            at <= records.len(),
            nusers == user_count(records@.take(at as int)),
            nusers <= at,
            boot == boot_time(records@.take(at as int)),
        decreases records.len() - at,
    {
        let record: SessionRecord = records[at];
        proof {
            let seen = records@.take(at + 1);
            assert(seen.drop_last() =~= records@.take(at as int));
            assert(seen.last() == record);
        }
        match record {
            SessionRecord::UserProcess => {
                nusers = nusers + 1;
            },
            SessionRecord::BootTime { login_time } => {
                if login_time > 0 {
                    boot = Some(login_time);
                }
            },
            SessionRecord::Other => {},
        }
        at = at + 1;
    }
    assert(records@.take(at as int) =~= records@);
    (boot, nusers)
}

/// The phrase for `count` logged-in users.
pub open spec fn users_text(count: nat) -> Seq<char> {
    if count == 0 {
        Seq::empty()
    } else if count == 1 {
        "1 user,  "@
    } else {
        decimal(count) + " users,  "@
    }
}

/// The phrase that reports how many users are logged in: nothing for none,
/// the singular for one, the plural for more.
pub fn print_nusers(nusers: usize) -> (s: String)
    ensures
        s@ == users_text(nusers as nat),
{
    let mut s: String = String::new();
    if nusers == 1 {
        s.append("1 user,  ");
    } else if nusers > 1 {
        push_decimal(&mut s, nusers as u64);
        s.append(" users,  ");
    }
    assert(s@ =~= users_text(nusers as nat));
    s
}

/// No record is counted twice: there are at most as many users as records.
pub proof fn lemma_user_count_bounded(records: Seq<SessionRecord>)
    ensures
        user_count(records) <= records.len(),
    decreases records.len(),
{
    if records.len() > 0 {
        lemma_user_count_bounded(records.drop_last());
    }
}

/// One more record changes the count by one if it is an open session, and
/// not at all otherwise; it replaces the boot time if it tells one, and
/// leaves it otherwise.
pub proof fn lemma_scan_step(records: Seq<SessionRecord>, next: SessionRecord)
    ensures
        user_count(records.push(next)) == user_count(records) + if next.is_user() {
            1nat
        } else {
            0nat
        },
        boot_time(records.push(next)) == if next.tells_boot() {
            Some(next.boot_seconds())
        } else {
            boot_time(records)
        },
{
    assert(records.push(next).drop_last() =~= records);
}

/// The boot time found is that of a record that tells one, and no later
/// record tells another; nothing is found only where no record tells any.
pub proof fn lemma_boot_time_is_last(records: Seq<SessionRecord>)
    ensures
        match boot_time(records) {
            Some(t) => exists|i: int|
                0 <= i < records.len() && #[trigger] records[i].tells_boot()
                    && records[i].boot_seconds() == t && forall|j: int|
                    i < j < records.len() ==> !#[trigger] records[j].tells_boot(),
            None => forall|i: int| 0 <= i < records.len() ==> !#[trigger] records[i].tells_boot(),
        },
    decreases records.len(),
{
    if records.len() > 0 {
        let head = records.drop_last();
        lemma_boot_time_is_last(head);
        if records.last().tells_boot() {
            assert(records[records.len() - 1].tells_boot());
        } else {
            match boot_time(head) {
                Some(t) => {
                    let i = choose|i: int|
                        0 <= i < head.len() && #[trigger] head[i].tells_boot()
                            && head[i].boot_seconds() == t && forall|j: int|
                            i < j < head.len() ==> !#[trigger] head[j].tells_boot();
                    assert(records[i].tells_boot());
                    assert forall|j: int| i < j < records.len() implies !#[trigger] records[j]
                        .tells_boot() by {
                        if j < head.len() {
                            assert(!head[j].tells_boot());
                        }
                    }
                },
                None => {
                    assert forall|i: int| 0 <= i < records.len() implies !#[trigger] records[i]
                        .tells_boot() by {
                        if i < head.len() {
                            assert(!head[i].tells_boot());
                        }
                    }
                },
            }
        }
    }
}

/// Scanning the same records again finds the same boot time and the same
/// number of users.
pub proof fn lemma_scan_repeatable(first: Seq<SessionRecord>, second: Seq<SessionRecord>)
    requires
        first =~= second,
    ensures
        boot_time(first) == boot_time(second),
        user_count(first) == user_count(second),
{
}

} // verus!
