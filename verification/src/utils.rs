use vstd::prelude::*;
use vstd::string::*;

verus! {

/// Names the character sequence that `char::to_uppercase` yields for `c`:
/// the Unicode uppercase mapping of one character.
pub uninterp spec fn upper_of(c: char) -> Seq<char>;

/// Relies on `char::to_uppercase` from std: the uppercase mapping of a
/// character depends on that character alone.
#[verifier::external_body]
fn upper_char(c: char) -> (r: String)
    ensures
        r@ == upper_of(c),
{
    c.to_uppercase().collect::<String>()
}

/// Relies on `String::push` from std: appends exactly the one character.
#[verifier::external_body]
fn push_char(s: &mut String, c: char)
    ensures
        final(s)@ == old(s)@.push(c),
{
    s.push(c);
}

/// Relies on `str` equality from std: true exactly when the two character
/// sequences are equal.
#[verifier::external_body]
pub(crate) fn str_eq(a: &str, b: &str) -> (r: bool)
    ensures
        r == (a@ == b@),
{
    a == b
}

/// The capitalized form of a word: its first character uppercased, the rest kept.
pub open spec fn cap_of(s: Seq<char>) -> Seq<char> {
    if s.len() == 0 {
        s
    } else {
        upper_of(s[0]) + s.skip(1)
    }
}

/// Uppercases the first character of `s` and keeps the rest.
pub fn capitalize(s: &str) -> (r: String)
    ensures
        r@ == cap_of(s@),
{
    let n = s.unicode_len();
    if n == 0 {
        String::new()
    } else {
        let mut r = upper_char(s.get_char(0));
        r.append(s.substring_char(1, n));
        proof {
            assert(s@.subrange(1, n as int) =~= s@.skip(1));
        }
        r
    }
}

/// The capitalized-word form of a hyphen-delimited name, read left to right:
/// hyphens are dropped, and a character standing at the start or right after a
/// hyphen is uppercased.
pub open spec fn pascal_rec(s: Seq<char>, word_start: bool) -> Seq<char>
    decreases s.len(),
{
    if s.len() == 0 {
        Seq::empty()
    } else if s[0] == '-' {
        pascal_rec(s.skip(1), true)
    } else if word_start {
        upper_of(s[0]) + pascal_rec(s.skip(1), false)
    } else {
        seq![s[0]] + pascal_rec(s.skip(1), false)
    }
}

/// The hyphen-delimited name with each segment capitalized and the hyphens
/// removed, e.g. a name of the shape `get-balance` becomes `GetBalance`.
pub open spec fn pascal_of(s: Seq<char>) -> Seq<char> {
    pascal_rec(s, true)
}

/// Converts a hyphen-delimited name to its capitalized-word form.
pub fn to_pascal_case(s: &str) -> (r: String)
    ensures
        r@ == pascal_of(s@),
{
    let n = s.unicode_len();
    let mut r = String::new();
    let mut i: usize = 0;
    let mut word_start: bool = true;
    proof {
        assert(s@.skip(0) =~= s@);
        assert(r@ + pascal_rec(s@, true) =~= pascal_rec(s@, true));
    }
    while i < n
        invariant
            n == s@.len(),
            i <= n,
            pascal_of(s@) == r@ + pascal_rec(s@.skip(i as int), word_start),
        decreases n - i,
    {
        let c = s.get_char(i);
        proof {
            assert(s@.skip(i as int).len() == n - i);
            assert(s@.skip(i as int)[0] == s@[i as int]);
            assert(s@.skip(i as int).skip(1) =~= s@.skip(i as int + 1));
        }
        let ghost prev = r@;
        if c == '-' {
            word_start = true;
        } else if word_start {
            let u = upper_char(c);
            r.append(u.as_str());
            word_start = false;
            proof {
                assert((prev + upper_of(c)) + pascal_rec(s@.skip(i as int + 1), false) =~= prev
                    + (upper_of(c) + pascal_rec(s@.skip(i as int + 1), false)));
            }
        } else {
            push_char(&mut r, c);
            proof {
                assert(prev.push(c) =~= prev + seq![c]);
                assert((prev + seq![c]) + pascal_rec(s@.skip(i as int + 1), false) =~= prev + (seq![
                    c,
                ] + pascal_rec(s@.skip(i as int + 1), false)));
            }
        }
        i = i + 1;
    }
    proof {
        assert(s@.skip(n as int) =~= Seq::<char>::empty());
        assert(pascal_of(s@) =~= r@ + Seq::<char>::empty());
        assert(r@ + Seq::<char>::empty() =~= r@);
    }
    r
}

/// A name as it may stand as a key in the generated declarations: quoted when
/// it holds a hyphen, unchanged otherwise.
pub open spec fn js_key_of(s: Seq<char>) -> Seq<char> {
    if s.contains('-') {
        seq!['"'] + s + seq!['"']
    } else {
        s
    }
}

/// Quotes `s` when it holds a hyphen, and returns it unchanged otherwise.
pub fn to_js_key(s: &str) -> (r: String)
    ensures
        r@ == js_key_of(s@),
{
    let n = s.unicode_len();
    let mut has: bool = false;
    let mut i: usize = 0;
    while i < n
        invariant
            n == s@.len(),
            i <= n,
            has <==> exists|k: int| 0 <= k < i as int && s@[k] == '-',
        decreases n - i,
    {
        if s.get_char(i) == '-' {
            has = true;
            proof {
                assert(s@[i as int] == '-');
            }
        }
        i = i + 1;
    }
    proof {
        assert(has == s@.contains('-'));
    }
    if has {
        let mut r = String::from_str("\"");
        r.append(s);
        r.append("\"");
        proof {
            reveal_strlit("\"");
            assert(r@ =~= js_key_of(s@));
        }
        r
    } else {
        let r = s.to_owned();
        r
    }
}

/// The name with each hyphen replaced by an underscore.
pub open spec fn underscored(s: Seq<char>) -> Seq<char> {
    s.map_values(|c: char| if c == '-' { '_' } else { c })
}

/// Replaces each hyphen in `s` with an underscore.
pub fn to_underscored(s: &str) -> (r: String)
    ensures
        r@ == underscored(s@),
{
    let n = s.unicode_len();
    let mut r = String::new();
    let mut i: usize = 0;
    while i < n
        invariant
            n == s@.len(),
            i <= n,
            r@ == underscored(s@.take(i as int)),
        decreases n - i,
    {
        let c = s.get_char(i);
        let d = if c == '-' {
            '_'
        } else {
            c
        };
        push_char(&mut r, d);
        proof {
            assert(underscored(s@.take(i as int + 1)) =~= underscored(s@.take(i as int)).push(d));
        }
        i = i + 1;
    }
    proof {
        assert(s@.take(n as int) =~= s@);
    }
    r
}

} // verus!
