//! Request identifiers: the instant of the request in nanoseconds since the
//! Unix epoch, written in lower-case hexadecimal.

use vstd::prelude::*;
use vstd::string::StringExecFns;

verus! {

/// The moment that the system clock shows.
#[verifier::external_type_specification]
#[verifier::external_body]
pub struct ExSystemTime(std::time::SystemTime);

/// The error of a clock that stands before the moment it is compared with.
#[verifier::external_type_specification]
#[verifier::external_body]
pub struct ExSystemTimeError(std::time::SystemTimeError);

/// `SystemTime::now`: whatever the system clock shows.
#[verifier::external_body]
fn clock_now() -> std::time::SystemTime {
    std::time::SystemTime::now()
}

/// `SystemTime::duration_since` with the Unix epoch: the time that has passed
/// since then, or an error where the clock stands before it.
#[verifier::external_body]
fn since_unix_epoch(t: &std::time::SystemTime) -> Result<
    std::time::Duration,
    std::time::SystemTimeError,
> {
    t.duration_since(std::time::UNIX_EPOCH)
}

/// `Duration::as_nanos`: the whole duration in nanoseconds.
#[verifier::external_body]
fn whole_nanos(d: &std::time::Duration) -> u128 {
    d.as_nanos()
}

/// The lower-case hexadecimal digit of a value below 16.
pub open spec fn hex_digit(d: nat) -> char {
    if d == 0 {
        '0'
    } else if d == 1 {
        '1'
    } else if d == 2 {
        '2'
    } else if d == 3 {
        '3'
    } else if d == 4 {
        '4'
    } else if d == 5 {
        '5'
    } else if d == 6 {
        '6'
    } else if d == 7 {
        '7'
    } else if d == 8 {
        '8'
    } else if d == 9 {
        '9'
    } else if d == 10 {
        'a'
    } else if d == 11 {
        'b'
    } else if d == 12 {
        'c'
    } else if d == 13 {
        'd'
    } else if d == 14 {
        'e'
    } else {
        'f'
    }
}

/// `n` in lower-case hexadecimal, most significant digit first, without
/// leading zeros; zero is written `0`.
pub open spec fn lower_hex(n: nat) -> Seq<char>
    decreases n,
{
    if n < 16 {
        seq![hex_digit(n)]
    } else {
        lower_hex(n / 16).push(hex_digit(n % 16))
    }
}

/// Whether `id` is the identifier of some instant that fits in 128 bits.
pub open spec fn is_request_id(id: Seq<char>) -> bool {
    exists|nanos: nat| nanos <= u128::MAX && id == #[trigger] lower_hex(nanos)
}

/// Every number has at least one hexadecimal digit.
pub proof fn lemma_lower_hex_nonempty(n: nat)
    ensures
        lower_hex(n).len() >= 1,
    decreases n,
{
    if n >= 16 {
        lemma_lower_hex_nonempty(n / 16);
    }
}

/// Different instants never share an identifier: a number can be read back
/// from its hexadecimal digits.
pub proof fn lemma_lower_hex_injective(a: nat, b: nat)
    requires
        lower_hex(a) == lower_hex(b),
    ensures
        a == b,
    decreases a,
{
    lemma_lower_hex_nonempty(a / 16);
    lemma_lower_hex_nonempty(b / 16);
    if a >= 16 && b >= 16 {
        assert(lower_hex(a).last() == hex_digit(a % 16));
        assert(lower_hex(b).last() == hex_digit(b % 16));
        assert(lower_hex(a).drop_last() == lower_hex(a / 16));
        assert(lower_hex(b).drop_last() == lower_hex(b / 16));
        lemma_lower_hex_injective(a / 16, b / 16);
    } else if a < 16 && b < 16 {
        assert(lower_hex(a)[0] == hex_digit(a));
        assert(lower_hex(b)[0] == hex_digit(b));
    } else if a < 16 {
        assert(lower_hex(b).len() == lower_hex(b / 16).len() + 1);
    } else {
        assert(lower_hex(a).len() == lower_hex(a / 16).len() + 1);
    }
}

/// The text of one hexadecimal digit.
fn digit_text(d: u8) -> (text: &'static str)
    requires
        d < 16,
    ensures
        text@ == seq![hex_digit(d as nat)],
{
    proof {
        reveal_strlit("0");
        reveal_strlit("1");
        reveal_strlit("2");
        reveal_strlit("3");
        reveal_strlit("4");
        reveal_strlit("5");
        reveal_strlit("6");
        reveal_strlit("7");
        reveal_strlit("8");
        reveal_strlit("9");
        reveal_strlit("a");
        reveal_strlit("b");
        reveal_strlit("c");
        reveal_strlit("d");
        reveal_strlit("e");
        reveal_strlit("f");
    }
    let text = if d == 0 {
        "0"
    } else if d == 1 {
        "1"
    } else if d == 2 {
        "2"
    } else if d == 3 {
        "3"
    } else if d == 4 {
        "4"
    } else if d == 5 {
        "5"
    } else if d == 6 {
        "6"
    } else if d == 7 {
        "7"
    } else if d == 8 {
        "8"
    } else if d == 9 {
        "9"
    } else if d == 10 {
        "a"
    } else if d == 11 {
        "b"
    } else if d == 12 {
        "c"
    } else if d == 13 {
        "d"
    } else if d == 14 {
        "e"
    } else {
        "f"
    };
    text
}

/// The identifier of the instant `nanos` nanoseconds after the Unix epoch.
pub fn request_id_at(nanos: u128) -> (id: String)
    ensures
        id@ == lower_hex(nanos as nat),
        is_request_id(id@),
        id@.len() >= 1,
    decreases nanos,
{
    proof {
        lemma_lower_hex_nonempty(nanos as nat);
    }
    if nanos < 16 {
        let d: u8 = nanos as u8;
        String::from_str(digit_text(d))
    } else {
        let mut id = request_id_at(nanos / 16);
        let d: u8 = (nanos % 16) as u8;
        id.append(digit_text(d));
        id
    }
}

/// The system clock in nanoseconds since the Unix epoch. A clock that stands
/// before the epoch reads as the epoch itself.
fn clock_nanos() -> u128 {
    let now = clock_now();
    match since_unix_epoch(&now) {
        Ok(elapsed) => whole_nanos(&elapsed),
        Err(_) => 0,
    }
}

/// A request identifier from the system clock alone. Nothing keeps two calls
/// at one clock reading apart: where identifiers must never repeat, they are
/// issued by `RequestIds`.
pub fn uuid_like() -> (id: String)
    ensures
        is_request_id(id@),
        id@.len() >= 1,
{
    request_id_at(clock_nanos())
}

/// The instant that is issued at clock reading `now` when `floor` is the
/// earliest instant not yet issued: the clock reading itself, unless the
/// clock has not moved on since the last identifier.
pub open spec fn instant_issued(floor: u128, now: u128) -> u128 {
    if now > floor {
        now
    } else {
        floor
    }
}

/// The earliest instant that is left once `instant` has been issued, or
/// `None` where `instant` was the last one that 128 bits can hold.
pub open spec fn floor_after(instant: u128) -> Option<u128> {
    if instant < u128::MAX {
        Some((instant + 1) as u128)
    } else {
        None
    }
}

/// Whether `instants` go strictly upwards and every one of them lies before
/// `floor`; with no floor left, every instant that 128 bits can hold does.
pub open spec fn rising_before(instants: Seq<nat>, floor: Option<u128>) -> bool {
    &&& forall|i: int|
        0 <= i < instants.len() ==> match floor {
            Some(f) => #[trigger] instants[i] < f,
            None => instants[i] <= u128::MAX,
        }
    &&& forall|i: int, j: int| 0 <= i < j < instants.len() ==> instants[i] < instants[j]
}

/// The issuer of request identifiers for one process. It remembers the
/// earliest instant that it has not yet issued, and never issues an earlier
/// one: every identifier it issues differs from all that it issued before.
pub struct RequestIds {
    floor: Option<u128>,
    instants: Ghost<Seq<nat>>,
}

impl RequestIds {
    #[verifier::type_invariant]
    spec fn issued_rise_before_floor(self) -> bool {
        rising_before(self.instants@, self.floor)
    }

    /// Every identifier issued so far, in the order of issue.
    pub closed spec fn issued(&self) -> Seq<Seq<char>> {
        self.instants@.map_values(|n: nat| lower_hex(n))
    }

    /// The earliest instant that has not been issued, or `None` where all
    /// instants that 128 bits can hold are used up.
    pub closed spec fn floor(&self) -> Option<u128> {
        self.floor
    }

    /// An issuer that has issued nothing.
    pub fn new() -> (ids: RequestIds)
        ensures
            ids.issued() == Seq::<Seq<char>>::empty(),
            ids.floor() == Some(0u128),
            ids.issued().no_duplicates(),
    {
        let ids = RequestIds { floor: Some(0), instants: Ghost(Seq::empty()) };
        assert(ids.issued() =~= Seq::<Seq<char>>::empty());
        ids
    }

    /// Whether an identifier is left to issue.
    pub fn has_more(&self) -> (more: bool)
        ensures
            more <==> self.floor() is Some,
    {
        self.floor.is_some()
    }

    /// Issues the identifier for a request that arrives at clock reading
    /// `now`: that of `now` itself, or of the earliest instant not yet issued
    /// where the clock has not moved past it. The identifier differs from
    /// every identifier issued before. Fails only where no instant is left,
    /// and then changes nothing.
    pub fn issue_at(&mut self, now: u128) -> (r: Option<String>)
        ensures
            r is Some <==> old(self).floor() is Some,
            r matches Some(id) ==> {
                &&& old(self).floor() matches Some(floor)
                &&& id@ == lower_hex(instant_issued(floor, now) as nat)
                &&& is_request_id(id@)
                &&& id@.len() >= 1
                &&& !old(self).issued().contains(id@)
                &&& final(self).issued() == old(self).issued().push(id@)
                &&& final(self).floor() == floor_after(instant_issued(floor, now))
            },
            r is None ==> final(self).issued() == old(self).issued() && final(self).floor()
                == old(self).floor(),
            final(self).issued().no_duplicates(),
    {
        proof {
            use_type_invariant(&*self);
        }
        match self.floor {
            None => {
                proof {
                    lemma_issued_are_distinct(self.instants@, self.floor);
                }
                None
            },
            Some(floor) => {
                let instant: u128 = if now > floor {
                    now
                } else {
                    floor
                };
                let id = request_id_at(instant);
                let ghost before = self.instants@;
                proof {
                    assert forall|i: int| 0 <= i < before.len() implies lower_hex(before[i])
                        != id@ by {
                        if lower_hex(before[i]) == id@ {
                            lemma_lower_hex_injective(before[i], instant as nat);
                        }
                    }
                    assert(self.issued().push(id@) =~= before.push(instant as nat).map_values(
                        |n: nat| lower_hex(n),
                    ));
                }
                let next: Option<u128> = if instant < u128::MAX {
                    Some(instant + 1)
                } else {
                    None
                };
                *self = RequestIds { floor: next, instants: Ghost(before.push(instant as nat)) };
                proof {
                    lemma_issued_are_distinct(self.instants@, self.floor);
                }
                Some(id)
            },
        }
    }

    /// Issues the identifier for a request that arrives now, by the system
    /// clock. The identifier differs from every identifier issued before,
    /// whatever the clock shows. Fails only where no instant is left, and
    /// then changes nothing.
    pub fn issue(&mut self) -> (r: Option<String>)
        ensures
            r is Some <==> old(self).floor() is Some,
            r matches Some(id) ==> {
                &&& is_request_id(id@)
                &&& id@.len() >= 1
                &&& !old(self).issued().contains(id@)
                &&& final(self).issued() == old(self).issued().push(id@)
            },
            r is None ==> final(self).issued() == old(self).issued() && final(self).floor()
                == old(self).floor(),
            final(self).issued().no_duplicates(),
    {
        let now = clock_nanos();
        self.issue_at(now)
    }
}

/// No identifier is issued twice: the identifiers of instants that go
/// strictly upwards are all different.
pub proof fn lemma_issued_are_distinct(instants: Seq<nat>, floor: Option<u128>)
    requires
        rising_before(instants, floor),
    ensures
        instants.map_values(|n: nat| lower_hex(n)).no_duplicates(),
{
    let ids = instants.map_values(|n: nat| lower_hex(n));
    assert forall|i: int, j: int| 0 <= i < ids.len() && 0 <= j < ids.len() && i != j implies ids[i]
        != ids[j] by {
        if ids[i] == ids[j] {
            lemma_lower_hex_injective(instants[i], instants[j]);
        }
    }
}

} // verus!
