use std::str::FromStr;
use trust_dns_server::proto::rr::Name;
use vstd::prelude::*;

verus! {

/// The lowercase ASCII text of the domain name that `s` spells, or `None`
/// where `s` is not a valid domain name.
pub uninterp spec fn lower_name_text(s: Seq<char>) -> Option<Seq<u8>>;

/// The longest text that is read as a name. A name has at most 255 octets,
/// and its text at most four characters for each; longer input is no name,
/// and the IDNA encoding that parsing runs can overflow on it.
pub const MAX_NAME_TEXT: usize = 1024;

/// Relies on trust_dns_proto's `Name::from_str` to parse a domain name,
/// `Name::to_lowercase` to fold its labels to lower case and `Name::to_ascii`
/// to write it out again (a trailing dot marks a fully qualified name).
#[verifier::external_body]
fn parse_lower_name(s: &str) -> (r: Option<Vec<u8>>)
    requires
        s@.len() <= MAX_NAME_TEXT,
    ensures
        r matches Some(v) ==> lower_name_text(s@) == Some(v@),
        r is None ==> lower_name_text(s@) is None,
{
    match Name::from_str(s) {
        Ok(n) => Some(n.to_lowercase().to_ascii().into_bytes()),
        Err(_) => None,
    }
}

/// A copy of a sequence of bytes.
pub fn copy_bytes(v: &Vec<u8>) -> (r: Vec<u8>)
    ensures
        r@ == v@,
{
    let mut out: Vec<u8> = Vec::new();
    let mut i: usize = 0;
    while i < v.len()
        invariant
            i <= v@.len(),
            out@ == v@.subrange(0, i as int),
        decreases v@.len() - i,
    {
        out.push(v[i]);
        i = i + 1;
        assert(out@ =~= v@.subrange(0, i as int));
    }
    assert(out@ =~= v@);
    out
}

/// The byte `.` that separates labels.
pub const DOT: u8 = 46;

/// The byte `\` that starts an escape in a name's text.
pub const BACKSLASH: u8 = 92;

/// How many backslashes stand right before position `p` of `s`. A dot there
/// separates labels only when that number is even; otherwise it is escaped and
/// belongs to a label.
pub open spec fn backslashes_before(s: Seq<u8>, p: int) -> nat
    decreases p,
{
    if p > 0 && s[p - 1] == BACKSLASH {
        1 + backslashes_before(s, p - 1)
    } else {
        0
    }
}

/// The root zone, written `.`.
pub open spec fn is_root(origin: Seq<u8>) -> bool {
    origin == seq![DOT]
}

/// A name lies in the zone of `origin` when the zone is the root, when it is
/// the origin itself, or when it ends in the origin after a `.` that
/// separates labels.
pub open spec fn in_zone(name: Seq<u8>, origin: Seq<u8>) -> bool {
    ||| is_root(origin)
    ||| name == origin
    ||| {
        &&& name.len() > origin.len()
        &&& name.subrange(name.len() - origin.len(), name.len() as int) == origin
        &&& name[name.len() - origin.len() - 1] == DOT
        &&& backslashes_before(name, name.len() - origin.len() - 1) % 2 == 0
    }
}

/// A domain name, held as its lowercase ASCII text; names compare
/// case-insensitively because they are folded when made.
#[derive(Debug, PartialEq, Eq)]
pub struct DnsName {
    text: Vec<u8>,
}

impl View for DnsName {
    type V = Seq<u8>;

    closed spec fn view(&self) -> Seq<u8> {
        self.text@
    }
}

impl DnsName {
    /// Parses and folds a domain name; `None` where it is not a valid name,
    /// and for any text longer than `MAX_NAME_TEXT` characters.
    pub fn parse(s: &str) -> (r: Option<DnsName>)
        ensures
            s@.len() > MAX_NAME_TEXT ==> r is None,
            s@.len() <= MAX_NAME_TEXT ==> (r matches Some(n) ==> lower_name_text(s@) == Some(n@)),
            s@.len() <= MAX_NAME_TEXT ==> (r is None ==> lower_name_text(s@) is None),
    {
        if s.unicode_len() > MAX_NAME_TEXT {
            return None;
        }
        match parse_lower_name(s) {
            Some(v) => Some(DnsName { text: v }),
            None => None,
        }
    }

    /// The lowercase text of the name.
    pub fn as_bytes(&self) -> (r: &Vec<u8>)
        ensures
            r@ == self@,
    {
        &self.text
    }

    /// A copy of the name.
    pub fn duplicate(&self) -> (r: DnsName)
        ensures
            r@ == self@,
    {
        DnsName { text: copy_bytes(&self.text) }
    }

    /// Whether the two names are the same.
    pub fn same_name(&self, other: &DnsName) -> (r: bool)
        ensures
            r == (self@ == other@),
    {
        if self.text.len() != other.text.len() {
            return false;
        }
        let mut i: usize = 0;
        while i < self.text.len()
            invariant
                self.text@.len() == other.text@.len(),
                i <= self.text@.len(),
                forall|j: int| 0 <= j < i ==> self.text@[j] == other.text@[j],
            decreases self.text@.len() - i,
        {
            if self.text[i] != other.text[i] {
                return false;
            }
            i = i + 1;
        }
        assert(self.text@ =~= other.text@);
        true
    }

    /// Whether this name lies in the zone whose origin is `origin`.
    pub fn is_within(&self, origin: &DnsName) -> (r: bool)
        ensures
            r == in_zone(self@, origin@),
    {
        let n = self.text.len();
        let o = origin.text.len();
        if o == 1 && origin.text[0] == DOT {
            assert(origin.text@ =~= seq![DOT]);
            return true;
        }
        assert(!is_root(origin@)) by {
            if origin.text@ == seq![DOT] {
                assert(origin.text@[0] == DOT);
            }
        }
        if n <= o {
            return self.same_name(origin);
        }
        let start: usize = n - o;
        if self.text[start - 1] != DOT {
            assert(self@.len() != origin@.len());
            assert(self@[self@.len() - origin@.len() - 1] != DOT);
            return false;
        }
        let dot: usize = start - 1;
        let mut k: usize = dot;
        let mut count: usize = 0;
        while k > 0 && self.text[k - 1] == BACKSLASH
            invariant
                k <= dot,
                dot < self.text@.len(),
                count == dot - k,
                backslashes_before(self.text@, dot as int) == count + backslashes_before(self.text@, k as int),
            decreases k,
        {
            k = k - 1;
            count = count + 1;
        }
        if count % 2 == 1 {
            assert(self@.len() != origin@.len());
            return false;
        }
        let mut i: usize = 0;
        while i < o
            invariant
                n == self.text@.len(),
                o == origin.text@.len(),
                start == n - o,
                n > o,
                !is_root(origin@),
                backslashes_before(self.text@, start - 1) % 2 == 0,
                i <= o,
                forall|j: int| 0 <= j < i ==> self.text@[start + j] == origin.text@[j],
            decreases o - i,
        {
            if self.text[start + i] != origin.text[i] {
                assert(self.text@.subrange(start as int, n as int)[i as int] != origin.text@[i as int]);
                return false;
            }
            i = i + 1;
        }
        assert(self.text@.subrange(start as int, n as int) =~= origin.text@);
        true
    }
}

} // verus!
