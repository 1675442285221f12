//! Job identifiers: 128-bit values written as UUIDs.

use vstd::prelude::*;

verus! {

/// The identifier of one job: one upload batch and one connection slot.
///
/// The value is that of the UUID, most significant byte first.
#[derive(Clone, Copy, Debug, PartialEq, Eq, Structural, Hash)]
pub struct JobId(pub u128);

/// What `uuid::Uuid::parse_str` reads from a text: the value of the UUID, or
/// nothing where the text is none of the forms it accepts.
pub uninterp spec fn uuid_parse(text: Seq<char>) -> Option<u128>;

/// The character of a hexadecimal digit, in lower case.
pub open spec fn hex_char(d: nat) -> char {
    if d == 0 {
        '0'
    } else if d == 1 {
        '1'
    } else if d == 2 {
        '2'
    } else if d == 3 {
        '3'
    } else if d == 4 {
        '4'
    } else if d == 5 {
        '5'
    } else if d == 6 {
        '6'
    } else if d == 7 {
        '7'
    } else if d == 8 {
        '8'
    } else if d == 9 {
        '9'
    } else if d == 10 {
        'a'
    } else if d == 11 {
        'b'
    } else if d == 12 {
        'c'
    } else if d == 13 {
        'd'
    } else if d == 14 {
        'e'
    } else {
        'f'
    }
}

/// The `n` lowest hexadecimal digits of a number, the highest of them first.
pub open spec fn hex_digits(value: nat, n: nat) -> Seq<char>
    decreases n,
{
    if n == 0 {
        Seq::empty()
    } else {
        hex_digits(value / 16, (n - 1) as nat).push(hex_char(value % 16))
    }
}

/// The hyphenated text of a UUID: its thirty-two hexadecimal digits in lower
/// case, in groups of eight, four, four, four and twelve.
pub open spec fn uuid_text(value: u128) -> Seq<char> {
    let digits = hex_digits(value as nat, 32);
    digits.subrange(0, 8) + seq!['-'] + digits.subrange(8, 12) + seq!['-'] + digits.subrange(
        12,
        16,
    ) + seq!['-'] + digits.subrange(16, 20) + seq!['-'] + digits.subrange(20, 32)
}

/// The bits that mark a UUID as random (version 4) in the RFC layout.
pub open spec fn is_version4(value: u128) -> bool {
    value & 0x0000_0000_0000_f000_c000_0000_0000_0000u128
        == 0x0000_0000_0000_4000_8000_0000_0000_0000u128
}

/// What is left of `s` when every occurrence of the non-empty `from`, found
/// from the left and never overlapping, is replaced by `to`.
pub open spec fn replaced(s: Seq<char>, from: Seq<char>, to: Seq<char>) -> Seq<char>
    decreases s.len(),
{
    if from.len() == 0 || s.len() < from.len() {
        s
    } else if s.subrange(0, from.len() as int) == from {
        to + replaced(s.skip(from.len() as int), from, to)
    } else {
        seq![s[0]] + replaced(s.skip(1), from, to)
    }
}

/// Calls `uuid::Uuid::parse_str` and hands out the value of the UUID it read.
/// The contract names the result; the parser accepts every text and fails on
/// what is no UUID.
#[verifier::external_body]
fn uuid_parse_str(text: &str) -> (r: Option<u128>)
    ensures
        r == uuid_parse(text@),
{
    match uuid::Uuid::parse_str(text) {
        Ok(id) => Some(id.as_u128()),
        Err(_) => None,
    }
}

/// Calls `uuid::Uuid::new_v4`, which draws a random value from the operating
/// system and stamps it as version 4. Nothing is claimed of the random bits.
#[verifier::external_body]
fn uuid_new_v4() -> (r: u128)
    ensures
        is_version4(r),
{
    uuid::Uuid::new_v4().as_u128()
}

/// Calls `to_string` on the `uuid::Uuid` of the given value, which writes
/// the hyphenated text of the UUID in lower case.
#[verifier::external_body]
fn uuid_to_string(value: u128) -> (r: String)
    ensures
        r@ == uuid_text(value),
{
    uuid::Uuid::from_u128(value).to_string()
}

/// Calls `str::replace`, which replaces the disjoint matches of `from`, taken
/// from the left, by `to`.
#[verifier::external_body]
fn str_replace(s: &str, from: &str, to: &str) -> (r: String)
    requires
        from@.len() > 0,
    ensures
        r@ == replaced(s@, from@, to@),
{
    s.replace(from, to)
}

/// The identifier that a query string carries: the query with every `id=`
/// taken out must read as a UUID.
pub open spec fn job_id_of_query(query: Seq<char>) -> Option<JobId> {
    match uuid_parse(replaced(query, "id="@, Seq::empty())) {
        Some(value) => Some(JobId(value)),
        None => None,
    }
}

impl JobId {
    /// Reads an identifier from a text in any of the UUID forms.
    pub fn parse_str(text: &str) -> (r: Option<JobId>)
        ensures
            r == match uuid_parse(text@) {
                Some(value) => Some(JobId(value)),
                None => None,
            },
    {
        match uuid_parse_str(text) {
            Some(value) => Some(JobId(value)),
            None => None,
        }
    }

    /// Draws a fresh random identifier.
    pub fn new_v4() -> (r: JobId)
        ensures
            is_version4(r.0),
    {
        JobId(uuid_new_v4())
    }

    /// Keeps the identifier that was read, or draws a fresh one where none
    /// was.
    pub fn or_new(candidate: Option<JobId>) -> (r: JobId)
        ensures
            match candidate {
                Some(id) => r == id,
                None => is_version4(r.0),
            },
    {
        match candidate {
            Some(id) => id,
            None => JobId::new_v4(),
        }
    }

    /// Accepts the identifier a client asks for, or draws a fresh one where
    /// the text is no UUID.
    pub fn parse_or_new(text: &str) -> (r: JobId)
        ensures
            match uuid_parse(text@) {
                Some(value) => r == JobId(value),
                None => is_version4(r.0),
            },
    {
        JobId::or_new(JobId::parse_str(text))
    }

    /// Reads the identifier of an upload from the query string of its request.
    /// A query that holds anything besides `id=` and a UUID gives `None`.
    pub fn from_query(query: &str) -> (r: Option<JobId>)
        ensures
            r == job_id_of_query(query@),
    {
        proof {
            reveal_strlit("id=");
            reveal_strlit("");
            assert(""@ =~= Seq::<char>::empty());
        }
        let bare = str_replace(query, "id=", "");
        JobId::parse_str(bare.as_str())
    }

    /// The hyphenated text of the identifier.
    pub fn hyphenated(&self) -> (r: String)
        ensures
            r@ == uuid_text(self.0),
    {
        uuid_to_string(self.0)
    }
}

/// Draws the identifier of a new file task: the text of a fresh random UUID.
pub fn new_task_id() -> (r: String)
    ensures
        exists|value: u128| is_version4(value) && r@ == #[trigger] uuid_text(value),
{
    uuid_to_string(uuid_new_v4())
}

} // verus!
