//! Process identifiers and the reasons for which processes end.
use vstd::prelude::*;

verus! {

/// The unique identifier of a process.
#[derive(Debug, Clone, Copy, PartialEq, Eq, Hash, Structural)]
pub struct Pid(u64);

/// The decimal digits of `n`, most significant first, without leading zeros.
pub open spec fn decimal(n: nat) -> Seq<char>
    decreases n,
{
    if n < 10 {
        seq![digit_char(n)]
    } else {
        decimal(n / 10).push(digit_char(n % 10))
    }
}

/// The character of one decimal digit.
pub open spec fn digit_char(d: nat) -> char {
    (48 + d) as char
}

impl Pid {
    /// The number behind the identifier.
    pub closed spec fn spec_id(self) -> u64 {
        self.0
    }

    /// The number behind the identifier.
    pub fn id(&self) -> (r: u64)
        ensures
            r == self.spec_id(),
    {
        self.0
    }

    /// How the identifier reads: `<0.N>`, with `N` in decimal.
    pub open spec fn spec_text(self) -> Seq<char> {
        seq!['<', '0', '.'] + decimal(self.spec_id() as nat) + seq!['>']
    }

    /// The identifier as text: `<0.N>`, with `N` in decimal.
    pub fn text(&self) -> (r: String)
        ensures
            r@ == self.spec_text(),
    {
        proof {
            reveal_strlit("<0.");
            reveal_strlit(">");
        }
        let digits = decimal_text(self.0);
        let text = "<0.".to_owned().concat(digits.as_str()).concat(">");
        assert(text@ =~= self.spec_text());
        text
    }
}

/// `n` in decimal.
fn decimal_text(n: u64) -> (r: String)
    ensures
        r@ == decimal(n as nat),
    decreases n,
{
    if n < 10 {
        digit_text(n).to_owned()
    } else {
        let text = decimal_text(n / 10).concat(digit_text(n % 10));
        assert(text@ =~= decimal(n as nat));
        text
    }
}

/// One decimal digit.
fn digit_text(d: u64) -> (r: &'static str)
    requires
        d < 10,
    ensures
        r@ == seq![digit_char(d as nat)],
{
    proof {
        reveal_strlit("0");
        reveal_strlit("1");
        reveal_strlit("2");
        reveal_strlit("3");
        reveal_strlit("4");
        reveal_strlit("5");
        reveal_strlit("6");
        reveal_strlit("7");
        reveal_strlit("8");
        reveal_strlit("9");
    }
    let text = match d {
        0 => "0",
        1 => "1",
        2 => "2",
        3 => "3",
        4 => "4",
        5 => "5",
        6 => "6",
        7 => "7",
        8 => "8",
        _ => "9",
    };
    assert(text@ =~= seq![digit_char(d as nat)]);
    text
}

/// Hands out process identifiers, each larger than all before it.
pub struct PidAllocator {
    next: u64,
}

impl PidAllocator {
    /// The number of the next identifier.
    pub closed spec fn spec_next(self) -> u64 {
        self.next
    }

    /// An allocator that has handed out nothing yet.
    pub fn new() -> (r: Self)
        ensures
            r.spec_next() == 1,
    {
        PidAllocator { next: 1 }
    }

    /// Whether another identifier can be had.
    pub fn has_next(&self) -> (r: bool)
        ensures
            r <==> self.spec_next() < u64::MAX,
    {
        self.next < u64::MAX
    }

    /// Hands out the next identifier.
    pub fn allocate(&mut self) -> (r: Pid)
        requires
            old(self).spec_next() < u64::MAX,
        ensures
            r.spec_id() == old(self).spec_next(),
            final(self).spec_next() == old(self).spec_next() + 1,
    {
        let id: u64 = self.next;
        self.next = id + 1;
        Pid(id)
    }
}

/// What has a process identifier.
pub trait HasPid {
    /// The identifier of the process.
    spec fn spec_pid(&self) -> Pid;

    /// The identifier of the process.
    fn pid(&self) -> (r: Pid)
        ensures
            r == self.spec_pid(),
    ;
}

/// Why a process ended.
#[derive(Debug, PartialEq, Eq)]
pub enum ExitReason {
    /// It stopped of its own accord.
    Normal,
    /// It crashed.
    Error(String),
}

impl Clone for ExitReason {
    fn clone(&self) -> (r: Self)
        ensures
            r == *self,
    {
        match self {
            ExitReason::Normal => ExitReason::Normal,
            ExitReason::Error(text) => ExitReason::Error(text.clone()),
        }
    }
}

impl ExitReason {
    /// Whether the process stopped of its own accord.
    pub fn is_normal(&self) -> (r: bool)
        ensures
            r <==> *self is Normal,
    {
        match self {
            ExitReason::Normal => true,
            ExitReason::Error(_) => false,
        }
    }
}

/// The number that a sequence of decimal digits stands for.
pub open spec fn value_of(digits: Seq<char>) -> nat
    decreases digits.len(),
{
    if digits.len() == 0 {
        0
    } else {
        (value_of(digits.drop_last()) * 10 + (digits.last() as int - '0' as int)) as nat
    }
}

/// Numbers are written in decimal: digits only, that read back as the number,
/// and no zero in front of others.
pub proof fn law_decimal_reads_back(n: nat)
    ensures
        value_of(decimal(n)) == n,
        decimal(n).len() > 0,
        forall|i: int| 0 <= i < decimal(n).len() ==> '0' <= #[trigger] decimal(n)[i] <= '9',
        decimal(n).len() > 1 ==> decimal(n)[0] != '0',
    decreases n,
{
    if n < 10 {
        assert(decimal(n).drop_last() =~= Seq::<char>::empty());
        assert(value_of(Seq::<char>::empty()) == 0);
    } else {
        law_decimal_reads_back(n / 10);
        assert(decimal(n).drop_last() =~= decimal(n / 10));
        if decimal(n / 10).len() == 1 {
            let front = decimal(n / 10);
            assert(front.drop_last() =~= Seq::<char>::empty());
            assert(value_of(Seq::<char>::empty()) == 0);
            assert(value_of(front) == front[0] as int - '0' as int);
        }
    }
}

/// An identifier reads `<0.N>`, where `N` reads back as its number.
pub proof fn law_an_identifier_reads_as_its_number(pid: Pid)
    ensures
        ({
            let text = pid.spec_text();
            &&& text.len() > 4
            &&& text[0] == '<' && text[1] == '0' && text[2] == '.'
            &&& text.last() == '>'
            &&& value_of(text.subrange(3, text.len() - 1)) == pid.spec_id()
        }),
{
    law_decimal_reads_back(pid.spec_id() as nat);
    let text = pid.spec_text();
    assert(text.subrange(3, text.len() - 1) =~= decimal(pid.spec_id() as nat));
}

/// An identifier is its number: different identifiers have different numbers.
pub proof fn law_an_identifier_is_its_number(a: Pid, b: Pid)
    ensures
        a.spec_id() == b.spec_id() <==> a == b,
{
}

} // verus!
