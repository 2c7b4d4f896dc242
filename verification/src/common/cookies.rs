use vstd::prelude::*;
use vstd::string::*;
use crate::common::text::{str_chars, is_hex_lower_char, lemma_hex_lower_shape};
use crate::common::is_session_token;

verus! {

/// The `Set-Cookie` value that `cookie` writes for a cookie with a name, a
/// value and a path and no other attribute: `name=value; Path=path`.
pub open spec fn set_cookie_text(name: Seq<char>, value: Seq<char>, path: Seq<char>) -> Seq<char> {
    name + seq!['='] + value + "; Path="@ + path
}

/// The `Set-Cookie` value of a cookie with a name, a value and a path.
///
/// Trusted: wraps `cookie::Cookie::build((name, value)).path(path).to_string()`.
/// In cookie's source `Display` writes `name=value` and then, of the
/// attributes, only those that are set; here that is `; Path=path`. Nothing is
/// percent-encoded or validated.
#[verifier::external_body]
fn cookie_with_path(name: &str, value: &str, path: &str) -> (res: String)
    ensures
        res@ == set_cookie_text(name@, value@, path@),
{
    cookie::Cookie::build((name, value)).path(path).to_string()
}

/// Name of the session cookie.
pub open spec fn session_cookie_name() -> Seq<char> {
    seq!['s', 'e', 's', 's', 'i', 'o', 'n']
}

/// The path the session cookie is scoped to.
pub open spec fn session_cookie_path() -> Seq<char> {
    seq!['/', 's', 'e', 's', 's', 'i', 'o', 'n']
}

/// The prefix a cookie pair must have to be the session cookie.
pub open spec fn session_prefix() -> Seq<char> {
    session_cookie_name() + seq!['=']
}

/// The `Set-Cookie` value that carries session `value` (empty to clear it).
pub open spec fn session_cookie(value: Seq<char>) -> Seq<char> {
    set_cookie_text(session_cookie_name(), value, session_cookie_path())
}

/// The `Set-Cookie` value `session=<value>; Path=/session`.
pub fn session_cookie_header(value: &str) -> (res: String)
    ensures
        res@ == session_cookie(value@),
{
    let name = String::from_str("session");
    let path = String::from_str("/session");
    proof {
        reveal_strlit("session");
        reveal_strlit("/session");
        assert(name@ =~= session_cookie_name());
        assert(path@ =~= session_cookie_path());
    }
    cookie_with_path(name.as_str(), value, path.as_str())
}

/// `char::is_whitespace`: the characters with the Unicode `White_Space` property.
pub open spec fn is_white_space(c: char) -> bool {
    ||| '\u{9}' <= c <= '\u{d}'
    ||| c == ' '
    ||| c == '\u{85}'
    ||| c == '\u{a0}'
    ||| c == '\u{1680}'
    ||| '\u{2000}' <= c <= '\u{200a}'
    ||| c == '\u{2028}'
    ||| c == '\u{2029}'
    ||| c == '\u{202f}'
    ||| c == '\u{205f}'
    ||| c == '\u{3000}'
}

fn white_space(c: char) -> (res: bool)
    ensures
        res == is_white_space(c),
{
    ('\u{9}' <= c && c <= '\u{d}') || c == ' ' || c == '\u{85}' || c == '\u{a0}' || c == '\u{1680}'
        || ('\u{2000}' <= c && c <= '\u{200a}') || c == '\u{2028}' || c == '\u{2029}' || c
        == '\u{202f}' || c == '\u{205f}' || c == '\u{3000}'
}

/// `str::trim_start`: drop leading white space.
pub open spec fn trim_start(s: Seq<char>) -> Seq<char>
    decreases s.len(),
{
    if s.len() > 0 && is_white_space(s[0]) {
        trim_start(s.drop_first())
    } else {
        s
    }
}

/// `str::trim_end`: drop trailing white space.
pub open spec fn trim_end(s: Seq<char>) -> Seq<char>
    decreases s.len(),
{
    if s.len() > 0 && is_white_space(s.last()) {
        trim_end(s.drop_last())
    } else {
        s
    }
}

/// `str::trim`: drop leading and trailing white space.
pub open spec fn trim(s: Seq<char>) -> Seq<char> {
    trim_end(trim_start(s))
}

/// `str::split(';')`: the pieces of `s` between semicolons, in order; there is
/// always at least one.
pub open spec fn split_semicolons(s: Seq<char>) -> Seq<Seq<char>>
    decreases s.len(),
{
    if s.len() == 0 {
        seq![seq![]]
    } else {
        let rest = split_semicolons(s.drop_first());
        if s[0] == ';' {
            seq![seq![]] + rest
        } else {
            rest.update(0, seq![s[0]] + rest[0])
        }
    }
}

/// `p` is a prefix of `s`.
pub open spec fn has_prefix(s: Seq<char>, p: Seq<char>) -> bool {
    p.len() <= s.len() && s.take(p.len() as int) == p
}

/// The value of the first cookie pair, among `pairs`, that once trimmed
/// starts with `session=`: what follows that prefix.
pub open spec fn first_session_value(pairs: Seq<Seq<char>>) -> Option<Seq<char>>
    decreases pairs.len(),
{
    if pairs.len() == 0 {
        None
    } else if has_prefix(trim(pairs[0]), session_prefix()) {
        Some(trim(pairs[0]).skip(session_prefix().len() as int))
    } else {
        first_session_value(pairs.drop_first())
    }
}

/// The session token carried by a `Cookie` header: split at `;`, take the
/// first piece that, trimmed, starts with `session=`, and keep what follows.
pub open spec fn session_token_of(header: Seq<char>) -> Option<Seq<char>> {
    first_session_value(split_semicolons(header))
}

/// Splitting at the first semicolon: the piece before it, then the pieces of
/// what follows it.
proof fn lemma_split_at_first(s: Seq<char>, j: int)
    requires
        0 <= j < s.len(),
        s[j] == ';',
        forall|k: int| 0 <= k < j ==> s[k] != ';',
    ensures
        split_semicolons(s) =~~= seq![s.take(j)] + split_semicolons(s.skip(j + 1)),
    decreases j,
{
    if j == 0 {
        assert(s.take(0) =~= Seq::<char>::empty());
        assert(s.skip(1) =~= s.drop_first());
    } else {
        let t = s.drop_first();
        lemma_split_at_first(t, j - 1);
        assert(t.skip(j) =~= s.skip(j + 1));
        assert(seq![s[0]] + t.take(j - 1) =~= s.take(j));
    }
}

/// Without a semicolon there is a single piece, the whole text.
proof fn lemma_split_without_semicolon(s: Seq<char>)
    requires
        forall|k: int| 0 <= k < s.len() ==> s[k] != ';',
    ensures
        split_semicolons(s) =~~= seq![s],
    decreases s.len(),
{
    if s.len() > 0 {
        lemma_split_without_semicolon(s.drop_first());
        assert(seq![s[0]] + s.drop_first() =~= s);
    }
}

/// `trim_start` drops exactly the leading run of white space.
proof fn lemma_trim_start(s: Seq<char>, a: int)
    requires
        0 <= a <= s.len(),
        forall|k: int| 0 <= k < a ==> is_white_space(s[k]),
        a < s.len() ==> !is_white_space(s[a]),
    ensures
        trim_start(s) == s.skip(a),
    decreases a,
{
    if a == 0 {
        assert(s.skip(0) =~= s);
    } else {
        lemma_trim_start(s.drop_first(), a - 1);
        assert(s.drop_first().skip(a - 1) =~= s.skip(a));
    }
}

/// `trim_end` drops exactly the trailing run of white space.
proof fn lemma_trim_end(s: Seq<char>, b: int)
    requires
        0 <= b <= s.len(),
        forall|k: int| b <= k < s.len() ==> is_white_space(s[k]),
        b > 0 ==> !is_white_space(s[b - 1]),
    ensures
        trim_end(s) == s.take(b),
    decreases s.len() - b,
{
    if b == s.len() {
        assert(s.take(b) =~= s);
    } else {
        lemma_trim_end(s.drop_last(), b);
        assert(s.drop_last().take(b) =~= s.take(b));
    }
}

/// The first-match search on a list that starts with `x`.
proof fn lemma_first_session_value_cons(x: Seq<char>, rest: Seq<Seq<char>>)
    ensures
        first_session_value(seq![x] + rest) == (if has_prefix(trim(x), session_prefix()) {
            Some(trim(x).skip(session_prefix().len() as int))
        } else {
            first_session_value(rest)
        }),
{
    let l = seq![x] + rest;
    assert(l[0] == x);
    assert(l.drop_first() =~= rest);
}

/// The session token carried by a `Cookie` header value, if any: the header
/// is split at `;`, each piece is trimmed, and the first piece that starts
/// with `session=` gives what follows that prefix.
pub fn find_session_token(header: &str) -> (res: Option<String>)
    ensures
        res is Some <==> session_token_of(header@) is Some,
        res matches Some(t) ==> session_token_of(header@) == Some(t@),
{
    let cs = str_chars(header);
    let n = cs.len();
    let prefix = ['s', 'e', 's', 's', 'i', 'o', 'n', '='];
    assert(prefix@ =~= session_prefix());
    let mut start: usize = 0;
    assert(cs@.skip(0) =~= cs@);
    loop
        invariant
            start <= n,
            n == cs@.len(),
            cs@ == header@,
            prefix@ == session_prefix(),
            session_token_of(header@) == first_session_value(split_semicolons(cs@.skip(start as int))),
        decreases n - start,
    {
        let mut j: usize = start;
        while j < n && cs[j] != ';'
            invariant
                start <= j <= n,
                n == cs@.len(),
                forall|k: int| start <= k < j ==> cs@[k] != ';',
            decreases n - j,
        {
            j = j + 1;
        }
        let ghost rest = cs@.skip(start as int);
        let ghost piece = cs@.subrange(start as int, j as int);
        proof {
            if j < n {
                lemma_split_at_first(rest, j - start);
                assert(rest.take(j - start) =~= piece);
                assert(rest.skip(j - start + 1) =~= cs@.skip(j + 1));
            } else {
                lemma_split_without_semicolon(rest);
                assert(rest =~= piece);
            }
        }
        let mut a: usize = start;
        while a < j && white_space(cs[a])
            invariant
                start <= a <= j <= n,
                n == cs@.len(),
                forall|k: int| start <= k < a ==> is_white_space(cs@[k]),
            decreases j - a,
        {
            a = a + 1;
        }
        let mut b: usize = j;
        while b > a && white_space(cs[b - 1])
            invariant
                start <= a <= b <= j <= n,
                n == cs@.len(),
                forall|k: int| b <= k < j ==> is_white_space(cs@[k]),
            decreases b - a,
        {
            b = b - 1;
        }
        proof {
            lemma_trim_start(piece, a - start);
            let tail = piece.skip(a - start);
            lemma_trim_end(tail, b - a);
            assert(tail.take(b - a) =~= cs@.subrange(a as int, b as int));
        }
        let ghost trimmed = cs@.subrange(a as int, b as int);
        assert(trim(piece) == trimmed);
        let mut matches = b - a >= 8;
        let mut k: usize = 0;
        while matches && k < 8
            invariant
                k <= 8,
                a <= b <= n,
                n == cs@.len(),
                prefix@ == session_prefix(),
                matches ==> b - a >= 8,
                matches ==> forall|i: int| 0 <= i < k ==> cs@[a + i] == prefix@[i],
                !matches ==> !has_prefix(cs@.subrange(a as int, b as int), session_prefix()),
            decreases 8 - k,
        {
            if cs[a + k] != prefix[k] {
                matches = false;
                assert(cs@.subrange(a as int, b as int).take(8)[k as int] == cs@[a + k]);
            }
            k = k + 1;
        }
        proof {
            lemma_first_session_value_cons(piece, if j < n { split_semicolons(cs@.skip(j + 1)) } else { seq![] });
            if matches {
                assert(cs@.subrange(a as int, b as int).take(8) =~= session_prefix());
            }
        }
        if matches {
            let value = header.substring_char(a + 8, b);
            assert(trimmed.skip(8) =~= cs@.subrange(a + 8, b as int));
            return Some(String::from_str(value));
        }
        if j == n {
            proof {
                assert(first_session_value(Seq::<Seq<char>>::empty()) is None);
            }
            return None;
        }
        start = j + 1;
    }
}

/// There is always at least one piece.
proof fn lemma_split_nonempty(s: Seq<char>)
    ensures
        split_semicolons(s).len() >= 1,
    decreases s.len(),
{
    if s.len() > 0 {
        lemma_split_nonempty(s.drop_first());
    }
}

/// Splitting text joined by a semicolon gives the pieces of both sides.
proof fn lemma_split_join(a: Seq<char>, b: Seq<char>)
    ensures
        split_semicolons(a + seq![';'] + b) =~~= split_semicolons(a) + split_semicolons(b),
    decreases a.len(),
{
    let joined = a + seq![';'] + b;
    if a.len() == 0 {
        assert(joined =~= seq![';'] + b);
        assert(joined.drop_first() =~= b);
    } else {
        let a2 = a.drop_first();
        lemma_split_join(a2, b);
        lemma_split_nonempty(a2);
        assert(joined.drop_first() =~= a2 + seq![';'] + b);
        assert(joined[0] == a[0]);
    }
}

/// The first match in a concatenation comes from the left part if it has one.
proof fn lemma_first_session_value_join(x: Seq<Seq<char>>, y: Seq<Seq<char>>)
    ensures
        first_session_value(x + y) == (if first_session_value(x) is Some {
            first_session_value(x)
        } else {
            first_session_value(y)
        }),
    decreases x.len(),
{
    if x.len() == 0 {
        assert(x + y =~= y);
    } else {
        lemma_first_session_value_join(x.drop_first(), y);
        assert((x + y).drop_first() =~= x.drop_first() + y);
        assert((x + y)[0] == x[0]);
    }
}

/// Facts about the text of an issued token: 64 characters, none of them white
/// space or a semicolon.
proof fn lemma_token_chars(token: Seq<char>)
    requires
        is_session_token(token),
    ensures
        token.len() == 64,
        forall|i: int| 0 <= i < token.len() ==> !is_white_space(#[trigger] token[i]) && token[i] != ';',
{
    let b = choose|b: Seq<u8>| b.len() == 32 && token == #[trigger] crate::common::text::hex_lower(b);
    lemma_hex_lower_shape(b);
    assert forall|i: int| 0 <= i < token.len() implies !is_white_space(#[trigger] token[i]) && token[i] != ';' by {
        assert(is_hex_lower_char(token[i]));
    }
}

/// The session cookie pair `session=<token>`, possibly preceded by white
/// space, is read as `token`.
proof fn lemma_session_pair(lead: Seq<char>, token: Seq<char>)
    requires
        is_session_token(token),
        forall|i: int| 0 <= i < lead.len() ==> #[trigger] lead[i] == ' ',
    ensures
        trim(lead + (session_prefix() + token)) == session_prefix() + token,
        has_prefix(session_prefix() + token, session_prefix()),
        (session_prefix() + token).skip(session_prefix().len() as int) == token,
        forall|i: int| 0 <= i < (lead + (session_prefix() + token)).len()
            ==> #[trigger] (lead + (session_prefix() + token))[i] != ';',
{
    lemma_token_chars(token);
    let pair = session_prefix() + token;
    let full = lead + pair;
    assert(!is_white_space(full[lead.len() as int]));
    assert forall|k: int| 0 <= k < lead.len() implies is_white_space(full[k]) by {
        assert(full[k] == lead[k]);
    }
    lemma_trim_start(full, lead.len() as int);
    assert(full.skip(lead.len() as int) =~= pair);
    assert(!is_white_space(pair[pair.len() - 1]));
    lemma_trim_end(pair, pair.len() as int);
    assert(pair.take(pair.len() as int) =~= pair);
    assert(trim_start(full) == pair);
    assert(trim(full) == trim_end(pair));
    assert(pair.take(session_prefix().len() as int) =~= session_prefix());
    assert(pair.skip(session_prefix().len() as int) =~= token);
    assert forall|i: int| 0 <= i < full.len() implies #[trigger] full[i] != ';' by {
        if i >= lead.len() + session_prefix().len() {
            assert(full[i] == token[i - lead.len() - session_prefix().len()]);
        }
    }
}

/// A session cookie the service issued is read back from the `Cookie` header
/// a client returns: on its own, as the `Set-Cookie` value it was sent in,
/// and after any cookies that are not session cookies and before any others.
pub proof fn law_issued_session_cookie_is_found(others: Seq<char>, token: Seq<char>, rest: Seq<char>)
    requires
        is_session_token(token),
        session_token_of(others) is None,
    ensures
        session_token_of(session_prefix() + token) == Some(token),
        session_token_of(session_cookie(token)) == Some(token),
        session_token_of(others + seq![';', ' '] + session_prefix() + token) == Some(token),
        session_token_of(others + seq![';', ' '] + session_prefix() + token + seq![';'] + rest) == Some(token),
{
    let empty: Seq<char> = seq![];
    let pair = session_prefix() + token;
    lemma_session_pair(empty, token);
    assert(empty + pair =~= pair);
    lemma_split_without_semicolon(pair);
    lemma_first_session_value_cons(pair, seq![]);
    assert(seq![pair] + Seq::<Seq<char>>::empty() =~= seq![pair]);

    // The `Set-Cookie` value: the pair, then `; Path=/session`.
    reveal_strlit("; Path=");
    let attrs = seq![' ', 'P', 'a', 't', 'h', '='] + session_cookie_path();
    assert(session_cookie(token) =~= pair + seq![';'] + attrs);
    lemma_split_join(pair, attrs);
    lemma_first_session_value_join(split_semicolons(pair), split_semicolons(attrs));

    // After other cookies.
    let spaced = seq![' '] + pair;
    lemma_session_pair(seq![' '], token);
    lemma_split_without_semicolon(spaced);
    lemma_first_session_value_cons(spaced, seq![]);
    assert(seq![spaced] + Seq::<Seq<char>>::empty() =~= seq![spaced]);
    assert(others + seq![';', ' '] + session_prefix() + token =~= others + seq![';'] + spaced);
    lemma_split_join(others, spaced);
    lemma_first_session_value_join(split_semicolons(others), split_semicolons(spaced));

    // And before further cookies.
    lemma_split_join(spaced, rest);
    lemma_first_session_value_join(split_semicolons(spaced), split_semicolons(rest));
    let tail = spaced + seq![';'] + rest;
    assert(others + seq![';', ' '] + session_prefix() + token + seq![';'] + rest =~= others + seq![';'] + tail);
    lemma_split_join(others, tail);
    lemma_first_session_value_join(split_semicolons(others), split_semicolons(tail));
}

} // verus!
