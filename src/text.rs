//! Small text pieces: decimal numbers, elided addresses, links, and the
//! per-source table that names vote directions.
use vstd::prelude::*;
use vstd::string::*;

verus! {

/// The character of a decimal digit.
pub open spec fn digit_char(d: nat) -> char {
    if d == 0 {
        '0'
    } else if d == 1 {
        '1'
    } else if d == 2 {
        '2'
    } else if d == 3 {
        '3'
    } else if d == 4 {
        '4'
    } else if d == 5 {
        '5'
    } else if d == 6 {
        '6'
    } else if d == 7 {
        '7'
    } else if d == 8 {
        '8'
    } else {
        '9'
    }
}

/// The decimal form of `n`, without leading zeros.
pub open spec fn decimal_of(n: nat) -> Seq<char>
    decreases n,
{
    if n < 10 {
        seq![digit_char(n)]
    } else {
        decimal_of(n / 10) + seq![digit_char(n % 10)]
    }
}

/// An address shortened to its first four and last four characters, or
/// unchanged when that would not make it shorter.
pub open spec fn elided(a: Seq<char>) -> Seq<char> {
    if a.len() > 11 {
        a.subrange(0, 4) + "..."@ + a.subrange(a.len() - 4, a.len() as int)
    } else {
        a
    }
}

/// The link to an entity page: the base, a slash, and the identifier.
pub open spec fn link_of(base: Seq<char>, id: u64) -> Seq<char> {
    base + "/"@ + decimal_of(id as nat)
}

/// The block-explorer page of an address.
pub open spec fn explorer_of(address: Seq<char>) -> Seq<char> {
    "https://etherscan.io/address/"@ + address
}

/// The name shown for an address: the resolved name if there is one, else
/// the elided address.
pub open spec fn display_name_of(resolved: Option<Seq<char>>, address: Seq<char>) -> Seq<char> {
    match resolved {
        Some(n) => n,
        None => elided(address),
    }
}

fn digit_str(d: u64) -> (r: &'static str)
    requires
        d < 10,
    ensures
        r@ == seq![digit_char(d as nat)],
{
    proof {
        reveal_strlit("0");
        reveal_strlit("1");
        reveal_strlit("2");
        reveal_strlit("3");
        reveal_strlit("4");
        reveal_strlit("5");
        reveal_strlit("6");
        reveal_strlit("7");
        reveal_strlit("8");
        reveal_strlit("9");
    }
    if d == 0 {
        "0"
    } else if d == 1 {
        "1"
    } else if d == 2 {
        "2"
    } else if d == 3 {
        "3"
    } else if d == 4 {
        "4"
    } else if d == 5 {
        "5"
    } else if d == 6 {
        "6"
    } else if d == 7 {
        "7"
    } else if d == 8 {
        "8"
    } else {
        "9"
    }
}

/// The decimal form of `n`.
pub fn decimal(n: u64) -> (r: String)
    ensures
        r@ == decimal_of(n as nat),
    decreases n,
{
    if n < 10 {
        String::from_str(digit_str(n))
    } else {
        let head = decimal(n / 10);
        head.concat(digit_str(n % 10))
    }
}

/// `address` shortened for display.
pub fn short_address(address: &String) -> (r: String)
    ensures
        r@ == elided(address@),
{
    let s = address.as_str();
    let len = s.unicode_len();
    if len > 11 {
        let head = String::from_str(s.substring_char(0, 4));
        let head = head.concat("...");
        head.concat(s.substring_char(len - 4, len))
    } else {
        address.clone()
    }
}

/// The name shown for an address, given what the name lookup returned.
pub fn display_name(resolved: Option<String>, address: &String) -> (r: String)
    ensures
        r@ == display_name_of(
            match resolved {
                Some(n) => Some(n@),
                None => None,
            },
            address@,
        ),
{
    match resolved {
        Some(n) => n,
        None => short_address(address),
    }
}

/// The link to the page of entity `id` under `base`.
pub fn entity_link(base: &String, id: u64) -> (r: String)
    ensures
        r@ == link_of(base@, id),
{
    let s = base.clone().concat("/");
    let d = decimal(id);
    s.concat(d.as_str())
}

/// The block-explorer page of `address`.
pub fn explorer_link(address: &String) -> (r: String)
    ensures
        r@ == explorer_of(address@),
{
    String::from_str("https://etherscan.io/address/").concat(address.as_str())
}

/// How one source names the raw vote directions it reports: the first entry
/// whose code matches gives the word, and `fallback` covers every other code.
#[derive(Debug)]
pub struct DirectionTable {
    pub entries: Vec<(u64, String)>,
    pub fallback: String,
}

/// The word for `code` under `entries` and `fallback`.
pub open spec fn direction_word(entries: Seq<(u64, String)>, fallback: Seq<char>, code: u64) -> Seq<
    char,
>
    decreases entries.len(),
{
    if entries.len() == 0 {
        fallback
    } else if entries[0].0 == code {
        entries[0].1@
    } else {
        direction_word(entries.drop_first(), fallback, code)
    }
}

impl DirectionTable {
    pub open spec fn spec_word(&self, code: u64) -> Seq<char> {
        direction_word(self.entries@, self.fallback@, code)
    }

    /// The word this source uses for vote direction `code`.
    pub fn word(&self, code: u64) -> (r: String)
        ensures
            r@ == self.spec_word(code),
    {
        let mut i: usize = 0;
        assert(self.entries@.subrange(0, self.entries@.len() as int) =~= self.entries@);
        while i < self.entries.len()
            invariant
                0 <= i <= self.entries@.len(),
                self.spec_word(code) == direction_word(
                    self.entries@.subrange(i as int, self.entries@.len() as int),
                    self.fallback@,
                    code,
                ),
            decreases self.entries@.len() - i,
        {
            let ghost rest = self.entries@.subrange(i as int, self.entries@.len() as int);
            assert(rest.drop_first() =~= self.entries@.subrange(i + 1, self.entries@.len() as int));
            if self.entries[i].0 == code {
                return self.entries[i].1.clone();
            }
            i = i + 1;
        }
        self.fallback.clone()
    }

    /// The table of a source whose votes read 0 against, 1 for, 2 abstain.
    pub fn against_for_abstain() -> (r: DirectionTable)
        ensures
            r.spec_word(0) == "against"@,
            r.spec_word(1) == "for"@,
            r.spec_word(2) == "abstain on"@,
            forall|c: u64| c > 2 ==> r.spec_word(c) == "unknown"@,
    {
        let mut entries: Vec<(u64, String)> = Vec::new();
        entries.push((0, String::from_str("against")));
        entries.push((1, String::from_str("for")));
        entries.push((2, String::from_str("abstain on")));
        let r = DirectionTable { entries, fallback: String::from_str("unknown") };
        proof {
            reveal_with_fuel(direction_word, 4);
        }
        r
    }

    /// The table of a source whose votes read 0 for, 1 against, and abstain otherwise.
    pub fn for_against_abstain() -> (r: DirectionTable)
        ensures
            r.spec_word(0) == "for"@,
            r.spec_word(1) == "against"@,
            forall|c: u64| c > 1 ==> r.spec_word(c) == "abstain on"@,
    {
        let mut entries: Vec<(u64, String)> = Vec::new();
        entries.push((0, String::from_str("for")));
        entries.push((1, String::from_str("against")));
        let r = DirectionTable { entries, fallback: String::from_str("abstain on") };
        proof {
            reveal_with_fuel(direction_word, 3);
        }
        r
    }

    /// The table of a source whose votes read 1 for, and against otherwise.
    pub fn for_or_against() -> (r: DirectionTable)
        ensures
            r.spec_word(1) == "for"@,
            forall|c: u64| c != 1 ==> r.spec_word(c) == "against"@,
    {
        let mut entries: Vec<(u64, String)> = Vec::new();
        entries.push((1, String::from_str("for")));
        let r = DirectionTable { entries, fallback: String::from_str("against") };
        proof {
            reveal_with_fuel(direction_word, 2);
        }
        r
    }
}

} // verus!
