//! Actor identity: names, slash-joined paths, and their validity.

use vstd::prelude::*;

verus! {

/// The mathematical content of an [`ActorUri`].
pub struct UriView {
    pub name: Seq<char>,
    pub path: Seq<char>,
    pub host: Seq<char>,
}

/// Where an actor lives: its own name, the slash-joined chain of ancestor
/// names, and a host label. The path is immutable for the cell's lifetime.
#[derive(Debug)]
pub struct ActorUri {
    pub name: String,
    pub path: String,
    pub host: String,
}

impl View for ActorUri {
    type V = UriView;

    open spec fn view(&self) -> UriView {
        UriView { name: self.name@, path: self.path@, host: self.host@ }
    }
}

impl Clone for ActorUri {
    fn clone(&self) -> (r: Self)
        ensures
            r@ == self@,
    {
        ActorUri { name: self.name.clone(), path: self.path.clone(), host: self.host.clone() }
    }
}

/// A name may stand in a path only if it is non-empty and free of `/`.
pub open spec fn valid_name(s: Seq<char>) -> bool {
    &&& s.len() > 0
    &&& forall|i: int| 0 <= i < s.len() ==> s[i] != '/'
}

/// Checks [`valid_name`] on a string slice.
pub fn is_valid_name(name: &str) -> (r: bool)
    ensures
        r == valid_name(name@),
{
    let len = name.unicode_len();
    if len == 0 {
        return false;
    }
    let mut i: usize = 0;
    while i < len
        invariant
            len == name@.len(),
            0 <= i <= len,
            forall|j: int| 0 <= j < i ==> name@[j] != '/',
        decreases len - i,
    {
        if name.get_char(i) == '/' {
            return false;
        }
        i = i + 1;
    }
    true
}

/// The decimal digit character for `d`.
pub open spec fn digit_char(d: nat) -> char {
    "0123456789"@[d as int]
}

/// The decimal digits of `n`, most significant first, no leading zeros.
pub open spec fn dec_digits(n: nat) -> Seq<char>
    decreases n,
{
    if n < 10 {
        seq![digit_char(n)]
    } else {
        dec_digits(n / 10) + seq![digit_char(n % 10)]
    }
}

/// No decimal digit is a slash.
pub proof fn lemma_digit_not_slash(d: nat)
    requires
        d < 10,
    ensures
        digit_char(d) != '/',
{
    reveal_strlit("0123456789");
    if d == 0 {
        assert("0123456789"@[0] == '0');
    } else if d == 1 {
        assert("0123456789"@[1] == '1');
    } else if d == 2 {
        assert("0123456789"@[2] == '2');
    } else if d == 3 {
        assert("0123456789"@[3] == '3');
    } else if d == 4 {
        assert("0123456789"@[4] == '4');
    } else if d == 5 {
        assert("0123456789"@[5] == '5');
    } else if d == 6 {
        assert("0123456789"@[6] == '6');
    } else if d == 7 {
        assert("0123456789"@[7] == '7');
    } else if d == 8 {
        assert("0123456789"@[8] == '8');
    } else {
        assert("0123456789"@[9] == '9');
    }
}

/// A decimal rendering is always a usable name: non-empty and free of `/`.
pub proof fn lemma_dec_digits_valid(n: nat)
    ensures
        valid_name(dec_digits(n)),
    decreases n,
{
    if n < 10 {
        lemma_digit_not_slash(n);
    } else {
        lemma_dec_digits_valid(n / 10);
        lemma_digit_not_slash(n % 10);
        assert forall|i: int| 0 <= i < dec_digits(n).len() implies dec_digits(n)[i] != '/' by {
            if i < dec_digits(n / 10).len() {
                assert(dec_digits(n)[i] == dec_digits(n / 10)[i]);
            } else {
                assert(dec_digits(n)[i] == digit_char(n % 10));
            }
        }
    }
}

/// Renders `n` in decimal.
pub fn u64_to_dec(n: u64) -> (r: String)
    ensures
        r@ == dec_digits(n as nat),
        valid_name(r@),
    decreases n,
{
    proof {
        reveal_strlit("0123456789");
        lemma_dec_digits_valid(n as nat);
    }
    let digits = "0123456789";
    if n < 10 {
        let c = digits.substring_char(n as usize, n as usize + 1);
        proof {
            assert(c@ =~= seq![digit_char(n as nat)]);
        }
        String::from_str(c)
    } else {
        let rest = u64_to_dec(n / 10);
        let d = (n % 10) as usize;
        let c = digits.substring_char(d, d + 1);
        proof {
            assert(c@ =~= seq![digit_char((n % 10) as nat)]);
        }
        rest.concat(c)
    }
}

/// The path a child of `parent` gets: the parent's path, a slash, the name.
pub open spec fn child_path(parent_path: Seq<char>, name: Seq<char>) -> Seq<char> {
    parent_path + "/"@ + name
}

/// Builds the URI of a child named `name` under `parent`; the child inherits
/// the parent's host.
pub fn make_child_uri(parent: &ActorUri, name: &str) -> (r: ActorUri)
    ensures
        r@.name == name@,
        r@.path == child_path(parent@.path, name@),
        r@.host == parent@.host,
{
    ActorUri {
        name: String::from_str(name),
        path: parent.path.clone().concat("/").concat(name),
        host: parent.host.clone(),
    }
}

} // verus!
