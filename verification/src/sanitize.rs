//! Masking account secrets in frpc's log output before it is shown or stored.

use vstd::prelude::*;
use crate::api::contains_text;
use crate::text::{chars_of, find_char, find_char_exec, string_from, sub_chars};

verus! {

broadcast use vstd::string::group_string_axioms;

// ---------------------------------------------------------------------------
// Replacing
// ---------------------------------------------------------------------------

/// `s` with every non-overlapping occurrence of `p`, taken from the left,
/// replaced by `to` (`str::replace`); `s` itself for an empty `p`.
pub open spec fn replace_all(s: Seq<char>, p: Seq<char>, to: Seq<char>) -> Seq<char>
    decreases s.len(),
{
    if p.len() == 0 || s.len() < p.len() {
        s
    } else if s.take(p.len() as int) == p {
        to + replace_all(s.skip(p.len() as int), p, to)
    } else {
        seq![s[0]] + replace_all(s.drop_first(), p, to)
    }
}

pub(crate) fn matches_at(s: &Vec<char>, i: usize, p: &Vec<char>) -> (b: bool)
    requires
        i + p.len() <= s.len(),
    ensures
        b == (s@.subrange(i as int, i + p.len()) == p@),
{
    let mut k: usize = 0;
    while k < p.len()
        invariant
            k <= p.len(),
            i + p.len() <= s.len(),
            forall|j: int| 0 <= j < k ==> s@[i + j] == p@[j],
        decreases p.len() - k,
    {
        if s[i + k] != p[k] {
            assert(s@.subrange(i as int, i + p.len())[k as int] != p@[k as int]);
            return false;
        }
        k = k + 1;
    }
    assert(s@.subrange(i as int, i + p.len()) =~= p@);
    true
}

/// Replaces every occurrence of `p` in `s` by `to`, left to right.
pub fn replace_chars(s: &Vec<char>, p: &Vec<char>, to: &Vec<char>) -> (r: Vec<char>)
    ensures
        r@ == replace_all(s@, p@, to@),
{
    if p.len() == 0 {
        return s.clone();
    }
    let n = s.len();
    let mut out: Vec<char> = Vec::new();
    let mut i: usize = 0;
    assert(s@.skip(0) =~= s@);
    while i < n
        invariant
            i <= n == s.len(),
            p.len() > 0,
            out@ + replace_all(s@.skip(i as int), p@, to@) == replace_all(s@, p@, to@),
        decreases n - i,
    {
        let ghost rest = s@.skip(i as int);
        if p.len() <= n - i && matches_at(s, i, p) {
            proof {
                assert(rest.take(p.len() as int) =~= s@.subrange(i as int, i + p.len()));
                assert(rest.skip(p.len() as int) =~= s@.skip(i + p.len()));
            }
            let mut t = to.clone();
            out.append(&mut t);
            i = i + p.len();
            proof {
                assert(out@ + replace_all(s@.skip(i as int), p@, to@) =~= replace_all(
                    s@,
                    p@,
                    to@,
                ));
            }
        } else {
            proof {
                if p.len() <= n - i {
                    assert(rest.take(p.len() as int) =~= s@.subrange(i as int, i + p.len()));
                }
                assert(rest.drop_first() =~= s@.skip(i + 1));
                assert(rest[0] == s@[i as int]);
            }
            out.push(s[i]);
            i = i + 1;
            proof {
                assert(out@ + replace_all(s@.skip(i as int), p@, to@) =~= replace_all(
                    s@,
                    p@,
                    to@,
                ));
            }
        }
    }
    proof {
        assert(s@.skip(n as int).len() == 0);
        assert(out@ =~= out@ + replace_all(s@.skip(n as int), p@, to@));
    }
    out
}

// ---------------------------------------------------------------------------
// UTF-8 lengths
// ---------------------------------------------------------------------------

/// Bytes of a character in UTF-8 (`char::len_utf8`).
pub open spec fn utf8_width(c: char) -> nat {
    if (c as u32) < 0x80 {
        1
    } else if (c as u32) < 0x800 {
        2
    } else if (c as u32) < 0x10000 {
        3
    } else {
        4
    }
}

/// Bytes of a string in UTF-8 (`str::len`).
pub open spec fn utf8_len(s: Seq<char>) -> nat
    decreases s.len(),
{
    if s.len() == 0 {
        0
    } else {
        utf8_len(s.drop_last()) + utf8_width(s.last())
    }
}

fn utf8_width_exec(c: char) -> (w: usize)
    ensures
        w == utf8_width(c),
{
    let v = c as u32;
    if v < 0x80 {
        1
    } else if v < 0x800 {
        2
    } else if v < 0x10000 {
        3
    } else {
        4
    }
}

proof fn lemma_utf8_len_bound(s: Seq<char>)
    ensures
        utf8_len(s) <= 4 * s.len(),
    decreases s.len(),
{
    if s.len() > 0 {
        lemma_utf8_len_bound(s.drop_last());
    }
}

/// UTF-8 byte lengths of all prefixes: `r[k]` is the length of the first `k` characters.
fn prefix_byte_lengths(s: &Vec<char>) -> (r: Vec<usize>)
    requires
        4 * s.len() <= usize::MAX,
    ensures
        r.len() == s.len() + 1,
        forall|k: int| 0 <= k <= s.len() ==> #[trigger] r@[k] == utf8_len(s@.take(k)),
{
    let mut r: Vec<usize> = Vec::new();
    r.push(0);
    assert(s@.take(0) =~= Seq::<char>::empty());
    let mut i: usize = 0;
    let mut total: usize = 0;
    while i < s.len()
        invariant
            i <= s.len(),
            4 * s.len() <= usize::MAX,
            r.len() == i + 1,
            total == utf8_len(s@.take(i as int)),
            forall|k: int| 0 <= k <= i ==> #[trigger] r@[k] == utf8_len(s@.take(k)),
        decreases s.len() - i,
    {
        proof {
            assert(s@.take(i + 1).drop_last() =~= s@.take(i as int));
            lemma_utf8_len_bound(s@.take(i + 1));
        }
        total = total + utf8_width_exec(s[i]);
        r.push(total);
        i = i + 1;
    }
    r
}

// ---------------------------------------------------------------------------
// Masking
// ---------------------------------------------------------------------------

/// A token whose UTF-8 prefixes from 8 bytes on all end on character
/// boundaries: every character that ends past byte 8 is ASCII. Masking
/// slices such a token at each of these byte lengths.
pub open spec fn slices_at_boundaries(token: Seq<char>) -> bool {
    utf8_len(token) < 10 || forall|k: int|
        0 <= k < token.len() && utf8_len(#[trigger] token.take(k + 1)) > 8 ==> (token[k] as u32)
            < 0x80
}

/// Masks, longest first, every prefix of `token` of at least 8 UTF-8 bytes,
/// looking at the prefixes of `k` characters and fewer.
pub open spec fn mask_prefixes(r: Seq<char>, token: Seq<char>, k: nat) -> Seq<char>
    decreases k,
{
    if k == 0 {
        r
    } else {
        let r2 = if utf8_len(token.take(k as int)) >= 8 {
            replace_all(r, token.take(k as int), "***"@)
        } else {
            r
        };
        mask_prefixes(r2, token, (k - 1) as nat)
    }
}

/// What masking one token does to a message: the token followed by `.`,
/// followed by `-`, and alone is removed; when the token has a `.`, each
/// side of at least 6 bytes becomes `***`; and when the token has at least
/// 10 bytes, each of its prefixes of at least 8 bytes, longest first,
/// becomes `***`.
pub open spec fn sanitize_token_spec(message: Seq<char>, token: Seq<char>) -> Seq<char> {
    let r1 = replace_all(message, token.push('.'), Seq::empty());
    let r2 = replace_all(r1, token.push('-'), Seq::empty());
    let r3 = replace_all(r2, token, Seq::empty());
    let r4 = match find_char(token, '.') {
        Some(p) => {
            let first = token.take(p);
            let second = token.skip(p + 1);
            let a = if utf8_len(first) >= 6 {
                replace_all(r3, first, "***"@)
            } else {
                r3
            };
            if utf8_len(second) >= 6 {
                replace_all(a, second, "***"@)
            } else {
                a
            }
        },
        None => r3,
    };
    if utf8_len(token) >= 10 {
        mask_prefixes(r4, token, token.len())
    } else {
        r4
    }
}

fn suffixed(token: &Vec<char>, c: char) -> (r: Vec<char>)
    ensures
        r@ == token@.push(c),
{
    let mut r = token.clone();
    r.push(c);
    r
}

/// Masks one token in a message.
pub fn sanitize_token(message: &str, token: &str) -> (r: String)
    requires
        slices_at_boundaries(token@),
        4 * token@.len() <= usize::MAX,
    ensures
        r@ == sanitize_token_spec(message@, token@),
{
    let msg = chars_of(message);
    let tok = chars_of(token);
    let empty: Vec<char> = Vec::new();
    let stars = chars_of("***");
    let r1 = replace_chars(&msg, &suffixed(&tok, '.'), &empty);
    let r2 = replace_chars(&r1, &suffixed(&tok, '-'), &empty);
    let r3 = replace_chars(&r2, &tok, &empty);
    let lens = prefix_byte_lengths(&tok);
    let r4 = match find_char_exec(&tok, '.') {
        Some(p) => {
            let first = sub_chars(&tok, 0, p);
            let second = sub_chars(&tok, p + 1, tok.len());
            assert(first@ =~= tok@.take(p as int));
            assert(second@ =~= tok@.skip(p + 1));
            proof {
                assert(tok@.take(p + 1).drop_last() =~= tok@.take(p as int));
                assert(tok@.take(tok@.len() as int) =~= tok@);
                lemma_utf8_len_split(tok@, p + 1);
                assert(lens@[p + 1] == utf8_len(tok@.take(p + 1)));
                assert(lens@[tok.len() as int] == utf8_len(tok@));
            }
            let first_len = lens[p];
            let second_len = lens[tok.len()] - lens[p + 1];
            let a = if first_len >= 6 {
                replace_chars(&r3, &first, &stars)
            } else {
                r3
            };
            if second_len >= 6 {
                replace_chars(&a, &second, &stars)
            } else {
                a
            }
        },
        None => r3,
    };
    proof {
        assert(tok@.take(tok@.len() as int) =~= tok@);
    }
    if lens[tok.len()] >= 10 {
        let mut r = r4;
        let mut k: usize = tok.len();
        while k > 0
            invariant
                k <= tok.len(),
                stars@ == "***"@,
                lens.len() == tok.len() + 1,
                forall|j: int| 0 <= j <= tok.len() ==> #[trigger] lens@[j] == utf8_len(tok@.take(j)),
                mask_prefixes(r@, tok@, k as nat) == mask_prefixes(r4@, tok@, tok@.len()),
            decreases k,
        {
            let ghost r_old = r@;
            assert(lens@[k as int] == utf8_len(tok@.take(k as int)));
            if lens[k] >= 8 {
                let prefix = sub_chars(&tok, 0, k);
                assert(prefix@ =~= tok@.take(k as int));
                r = replace_chars(&r, &prefix, &stars);
            }
            proof {
                let kk = k as nat;
                assert(kk > 0);
                assert(mask_prefixes(r_old, tok@, kk) == mask_prefixes(
                    if utf8_len(tok@.take(kk as int)) >= 8 {
                        replace_all(r_old, tok@.take(kk as int), "***"@)
                    } else {
                        r_old
                    },
                    tok@,
                    (kk - 1) as nat,
                ));
            }
            k = k - 1;
        }
        string_from(&r)
    } else {
        string_from(&r4)
    }
}

proof fn lemma_utf8_len_split(s: Seq<char>, k: int)
    requires
        0 <= k <= s.len(),
    ensures
        utf8_len(s) == utf8_len(s.take(k)) + utf8_len(s.skip(k)),
    decreases s.len(),
{
    if k == s.len() {
        assert(s.take(k) =~= s);
        assert(s.skip(k).len() == 0);
    } else {
        lemma_utf8_len_split(s.drop_last(), k);
        assert(s.drop_last().take(k) =~= s.take(k));
        assert(s.skip(k).drop_last() =~= s.drop_last().skip(k));
        assert(s.skip(k).last() == s.last());
    }
}

} // verus!

verus! {

/// The characters of each secret.
pub open spec fn secrets_view(secrets: Seq<&str>) -> Seq<Seq<char>> {
    secrets.map_values(|s: &str| s@)
}

/// Masking each non-empty secret in turn.
pub open spec fn sanitize_all(message: Seq<char>, secrets: Seq<Seq<char>>) -> Seq<char>
    decreases secrets.len(),
{
    if secrets.len() == 0 {
        message
    } else {
        let r = sanitize_all(message, secrets.drop_last());
        if secrets.last().len() == 0 {
            r
        } else {
            sanitize_token_spec(r, secrets.last())
        }
    }
}

/// The index, at `from` or after, of the first non-empty secret that still
/// occurs in the text.
pub open spec fn first_present(text: Seq<char>, secrets: Seq<Seq<char>>, from: int) -> Option<int>
    decreases secrets.len() - from,
{
    if from < 0 || from >= secrets.len() {
        None
    } else if secrets[from].len() > 0 && contains_text(text, secrets[from]) {
        Some(from)
    } else {
        first_present(text, secrets, from + 1)
    }
}

/// While a non-empty secret still occurs in the text, every occurrence of
/// the first such secret is removed. Each round shortens the text.
pub open spec fn scrubbed(text: Seq<char>, secrets: Seq<Seq<char>>) -> Seq<char>
    decreases text.len(),
{
    match first_present(text, secrets, 0) {
        Some(k) => {
            let next = replace_all(text, secrets[k], Seq::empty());
            if next.len() < text.len() {
                scrubbed(next, secrets)
            } else {
                text
            }
        },
        None => text,
    }
}

/// A log message with its secrets hidden: each non-empty secret masked in
/// turn, then whatever occurrence that left or re-formed removed.
pub open spec fn sanitized(message: Seq<char>, secrets: Seq<Seq<char>>) -> Seq<char> {
    scrubbed(sanitize_all(message, secrets), secrets)
}

proof fn lemma_first_present(text: Seq<char>, secrets: Seq<Seq<char>>, from: int)
    requires
        0 <= from,
    ensures
        first_present(text, secrets, from) matches Some(k) ==> from <= k < secrets.len()
            && secrets[k].len() > 0 && contains_text(text, secrets[k]),
        first_present(text, secrets, from) is None ==> forall|j: int|
            from <= j < secrets.len() && secrets[j].len() > 0 ==> !contains_text(
                text,
                #[trigger] secrets[j],
            ),
    decreases secrets.len() - from,
{
    if from < secrets.len() {
        lemma_first_present(text, secrets, from + 1);
    }
}

/// Removing a pattern never lengthens a text, and shortens it where the
/// pattern occurs.
proof fn lemma_removal_shrinks(t: Seq<char>, p: Seq<char>)
    requires
        p.len() > 0,
    ensures
        replace_all(t, p, Seq::empty()).len() <= t.len(),
        contains_text(t, p) ==> replace_all(t, p, Seq::empty()).len() < t.len(),
    decreases t.len(),
{
    if t.len() < p.len() {
    } else if t.take(p.len() as int) == p {
        lemma_removal_shrinks(t.skip(p.len() as int), p);
    } else {
        lemma_removal_shrinks(t.drop_first(), p);
        if contains_text(t, p) {
            let i = choose|i: int| 0 <= i <= t.len() - p.len() && #[trigger] t.subrange(i, i + p.len()) == p;
            if i == 0 {
                assert(t.take(p.len() as int) =~= t.subrange(0, 0 + p.len() as int));
            } else {
                assert(t.drop_first().subrange(i - 1, i - 1 + p.len()) =~= t.subrange(i, i + p.len()));
            }
        }
    }
}

/// No non-empty secret occurs in a scrubbed text.
proof fn lemma_scrubbed_clean(text: Seq<char>, secrets: Seq<Seq<char>>)
    ensures
        forall|j: int|
            0 <= j < secrets.len() && secrets[j].len() > 0 ==> !contains_text(
                scrubbed(text, secrets),
                #[trigger] secrets[j],
            ),
    decreases text.len(),
{
    lemma_first_present(text, secrets, 0);
    match first_present(text, secrets, 0) {
        Some(k) => {
            lemma_removal_shrinks(text, secrets[k]);
            lemma_scrubbed_clean(replace_all(text, secrets[k], Seq::empty()), secrets);
        },
        None => {},
    }
}

fn first_present_exec(text: &Vec<char>, secrets: &Vec<Vec<char>>) -> (r: Option<usize>)
    ensures
        match first_present(text@, secrets@.map_values(|v: Vec<char>| v@), 0) {
            Some(k) => r == Some(k as usize),
            None => r is None,
        },
{
    let ghost sv = secrets@.map_values(|v: Vec<char>| v@);
    let mut i: usize = 0;
    while i < secrets.len()
        invariant
            i <= secrets.len(),
            sv == secrets@.map_values(|v: Vec<char>| v@),
            first_present(text@, sv, 0) == first_present(text@, sv, i as int),
        decreases secrets.len() - i,
    {
        assert(sv[i as int] == secrets@[i as int]@);
        if secrets[i].len() > 0 && crate::api::contains_chars(text, &secrets[i]) {
            return Some(i);
        }
        i = i + 1;
    }
    None
}

/// Hides each non-empty secret (account and node tokens) in a log message:
/// each is masked in turn, and then any occurrence that the masking left
/// or re-formed is removed, so that no non-empty secret occurs in the
/// result.
pub fn sanitize_log(message: &str, secrets: &[&str]) -> (r: String)
    requires
        forall|k: int|
            0 <= k < secrets@.len() ==> slices_at_boundaries(#[trigger] secrets@[k]@) && 4
                * secrets@[k]@.len() <= usize::MAX,
    ensures
        r@ == sanitized(message@, secrets_view(secrets@)),
        forall|k: int|
            0 <= k < secrets@.len() && secrets@[k]@.len() > 0 ==> !contains_text(
                r@,
                #[trigger] secrets@[k]@,
            ),
{
    let ghost sv = secrets_view(secrets@);
    let mut result = string_from(&chars_of(message));
    let mut i: usize = 0;
    assert(sv.take(0) =~= Seq::<Seq<char>>::empty());
    while i < secrets.len()
        invariant
            i <= secrets@.len(),
            sv == secrets_view(secrets@),
            forall|k: int|
                0 <= k < secrets@.len() ==> slices_at_boundaries(#[trigger] secrets@[k]@) && 4
                    * secrets@[k]@.len() <= usize::MAX,
            result@ == sanitize_all(message@, sv.take(i as int)),
        decreases secrets.len() - i,
    {
        proof {
            assert(sv.take(i + 1).drop_last() =~= sv.take(i as int));
            assert(sv.take(i + 1).last() == secrets@[i as int]@);
        }
        let secret: &str = secrets[i];
        if secret.is_empty() {
        } else {
            result = sanitize_token(result.as_str(), secret);
        }
        i = i + 1;
    }
    assert(sv.take(secrets@.len() as int) =~= sv);
    let mut secret_chars: Vec<Vec<char>> = Vec::new();
    let mut j: usize = 0;
    while j < secrets.len()
        invariant
            j <= secrets@.len(),
            sv == secrets_view(secrets@),
            secret_chars.len() == j,
            forall|k: int| 0 <= k < j ==> #[trigger] secret_chars@[k]@ == sv[k],
        decreases secrets.len() - j,
    {
        secret_chars.push(chars_of(secrets[j]));
        j = j + 1;
    }
    assert(secret_chars@.map_values(|v: Vec<char>| v@) =~= sv);
    let ghost masked = result@;
    let mut cur = chars_of(result.as_str());
    let empty: Vec<char> = Vec::new();
    assert(empty@ =~= Seq::<char>::empty());
    let mut done = false;
    while !done
        invariant
            sv == secrets_view(secrets@),
            secret_chars@.map_values(|v: Vec<char>| v@) == sv,
            scrubbed(cur@, sv) == scrubbed(masked, sv),
            done ==> first_present(cur@, sv, 0) is None,
            empty@ == Seq::<char>::empty(),
        decreases cur@.len() + if done { 0int } else { 1int },
    {
        match first_present_exec(&cur, &secret_chars) {
            Some(k) => {
                proof {
                    lemma_first_present(cur@, sv, 0);
                    assert(secret_chars@[k as int]@ == sv[k as int]);
                    lemma_removal_shrinks(cur@, sv[k as int]);
                }
                cur = replace_chars(&cur, &secret_chars[k], &empty);
            },
            None => {
                done = true;
            },
        }
    }
    proof {
        lemma_scrubbed_clean(masked, sv);
        assert forall|k: int| 0 <= k < secrets@.len() implies #[trigger] secrets@[k]@ == sv[k] by {}
    }
    string_from(&cur)
}

} // verus!

verus! {

/// Whether `s` holds no `*`.
pub open spec fn starless(s: Seq<char>) -> bool {
    !s.contains('*')
}

/// Where a masked message shows no `*` over its first `k` characters, it
/// agrees there with the message.
proof fn lemma_starless_prefix(t: Seq<char>, q: Seq<char>, k: int)
    requires
        q.len() > 0,
        0 <= k <= replace_all(t, q, "***"@).len(),
        forall|j: int| 0 <= j < k ==> replace_all(t, q, "***"@)[j] != '*',
    ensures
        k <= t.len(),
        replace_all(t, q, "***"@).take(k) == t.take(k),
    decreases t.len(),
{
    reveal_strlit("***");
    let r = replace_all(t, q, "***"@);
    if k == 0 {
        assert(r.take(0) =~= t.take(0));
    } else if t.len() < q.len() {
    } else if t.take(q.len() as int) == q {
        assert(r[0] == '*');
    } else {
        let rest = replace_all(t.drop_first(), q, "***"@);
        assert(r == seq![t[0]] + rest);
        assert forall|j: int| 0 <= j < k - 1 implies rest[j] != '*' by {
            assert(r[j + 1] == rest[j]);
        }
        lemma_starless_prefix(t.drop_first(), q, k - 1);
        assert(r.take(k) =~= seq![t[0]] + rest.take(k - 1));
        assert(t.take(k) =~= seq![t[0]] + t.drop_first().take(k - 1));
    }
}

/// An occurrence in a tail is an occurrence in the whole.
proof fn lemma_contains_in_tail(s: Seq<char>, n: int, p: Seq<char>)
    requires
        0 <= n <= s.len(),
        contains_text(s.skip(n), p),
    ensures
        contains_text(s, p),
{
    let t = s.skip(n);
    let i = choose|i: int| 0 <= i <= t.len() - p.len() && #[trigger] t.subrange(i, i + p.len()) == p;
    assert(s.subrange(n + i, n + i + p.len()) =~= t.subrange(i, i + p.len()));
}

/// An occurrence after a prefix of `k` characters is an occurrence in
/// what follows the prefix.
proof fn lemma_occurrence_after(pre: Seq<char>, rest: Seq<char>, p: Seq<char>, i: int)
    requires
        pre.len() <= i,
        0 <= i <= (pre + rest).len() - p.len(),
        (pre + rest).subrange(i, i + p.len()) == p,
    ensures
        contains_text(rest, p),
{
    let j = i - pre.len();
    assert(rest.subrange(j, j + p.len()) =~= (pre + rest).subrange(i, i + p.len()));
}

/// Masking a starless pattern leaves no occurrence of it.
proof fn lemma_masked_pattern_gone(s: Seq<char>, q: Seq<char>)
    requires
        q.len() > 0,
        starless(q),
    ensures
        !contains_text(replace_all(s, q, "***"@), q),
    decreases s.len(),
{
    reveal_strlit("***");
    let r = replace_all(s, q, "***"@);
    if s.len() < q.len() {
    } else if s.take(q.len() as int) == q {
        let rest = replace_all(s.skip(q.len() as int), q, "***"@);
        lemma_masked_pattern_gone(s.skip(q.len() as int), q);
        assert(r == "***"@ + rest);
        if contains_text(r, q) {
            let i = choose|i: int| 0 <= i <= r.len() - q.len() && #[trigger] r.subrange(i, i + q.len()) == q;
            if i < 3 {
                assert(r.subrange(i, i + q.len())[0] == q[0]);
                assert(q.contains(q[0]));
            } else {
                lemma_occurrence_after("***"@, rest, q, i);
            }
        }
    } else {
        let t = s.drop_first();
        let rest = replace_all(t, q, "***"@);
        lemma_masked_pattern_gone(t, q);
        assert(r == seq![s[0]] + rest);
        if contains_text(r, q) {
            let i = choose|i: int| 0 <= i <= r.len() - q.len() && #[trigger] r.subrange(i, i + q.len()) == q;
            if i >= 1 {
                lemma_occurrence_after(seq![s[0]], rest, q, i);
            } else {
                let k = q.len() - 1;
                assert forall|j: int| 0 <= j < k implies rest[j] != '*' by {
                    assert(rest[j] == r.subrange(0, q.len() as int)[j + 1]);
                    assert(q.contains(q[j + 1]));
                }
                lemma_starless_prefix(t, q, k);
                assert(s.take(q.len() as int) =~= seq![s[0]] + t.take(k));
                assert(r.subrange(0, q.len() as int) =~= seq![s[0]] + rest.take(k));
            }
        }
    }
}

/// Masking any pattern cannot make a starless text appear.
proof fn lemma_mask_keeps_absence(s: Seq<char>, q: Seq<char>, p: Seq<char>)
    requires
        q.len() > 0,
        p.len() > 0,
        starless(p),
        !contains_text(s, p),
    ensures
        !contains_text(replace_all(s, q, "***"@), p),
    decreases s.len(),
{
    reveal_strlit("***");
    let r = replace_all(s, q, "***"@);
    if s.len() < q.len() {
    } else if s.take(q.len() as int) == q {
        let tail = s.skip(q.len() as int);
        let rest = replace_all(tail, q, "***"@);
        if contains_text(tail, p) {
            lemma_contains_in_tail(s, q.len() as int, p);
        }
        lemma_mask_keeps_absence(tail, q, p);
        assert(r == "***"@ + rest);
        if contains_text(r, p) {
            let i = choose|i: int| 0 <= i <= r.len() - p.len() && #[trigger] r.subrange(i, i + p.len()) == p;
            if i < 3 {
                assert(r.subrange(i, i + p.len())[0] == p[0]);
                assert(p.contains(p[0]));
            } else {
                lemma_occurrence_after("***"@, rest, p, i);
            }
        }
    } else {
        let t = s.drop_first();
        let rest = replace_all(t, q, "***"@);
        if contains_text(t, p) {
            assert(t =~= s.skip(1));
            lemma_contains_in_tail(s, 1, p);
        }
        lemma_mask_keeps_absence(t, q, p);
        assert(r == seq![s[0]] + rest);
        if contains_text(r, p) {
            let i = choose|i: int| 0 <= i <= r.len() - p.len() && #[trigger] r.subrange(i, i + p.len()) == p;
            if i >= 1 {
                lemma_occurrence_after(seq![s[0]], rest, p, i);
            } else {
                let k = p.len() - 1;
                assert forall|j: int| 0 <= j < k implies rest[j] != '*' by {
                    assert(rest[j] == r.subrange(0, p.len() as int)[j + 1]);
                    assert(p.contains(p[j + 1]));
                }
                lemma_starless_prefix(t, q, k);
                assert(s.subrange(0, p.len() as int) =~= seq![s[0]] + t.take(k));
                assert(r.subrange(0, p.len() as int) =~= seq![s[0]] + rest.take(k));
            }
        }
    }
}

/// Masking shorter prefixes cannot bring back a starless token.
proof fn lemma_prefixes_keep_absence(r: Seq<char>, token: Seq<char>, k: nat)
    requires
        k <= token.len(),
        token.len() > 0,
        starless(token),
        !contains_text(r, token),
    ensures
        !contains_text(mask_prefixes(r, token, k), token),
    decreases k,
{
    if k > 0 {
        let r2 = if utf8_len(token.take(k as int)) >= 8 {
            replace_all(r, token.take(k as int), "***"@)
        } else {
            r
        };
        if utf8_len(token.take(k as int)) >= 8 {
            lemma_mask_keeps_absence(r, token.take(k as int), token);
        }
        lemma_prefixes_keep_absence(r2, token, (k - 1) as nat);
    }
}

/// A masked token of at least ten UTF-8 bytes and without `*` no longer
/// occurs in the message: its longest prefix, the token itself, is masked
/// first, and masking its shorter prefixes cannot bring it back.
pub proof fn masked_token_is_hidden(message: Seq<char>, token: Seq<char>)
    requires
        utf8_len(token) >= 10,
        starless(token),
    ensures
        !contains_text(sanitize_token_spec(message, token), token),
{
    let r1 = replace_all(message, token.push('.'), Seq::empty());
    let r2 = replace_all(r1, token.push('-'), Seq::empty());
    let r3 = replace_all(r2, token, Seq::empty());
    let r4 = match find_char(token, '.') {
        Some(p) => {
            let first = token.take(p);
            let second = token.skip(p + 1);
            let a = if utf8_len(first) >= 6 {
                replace_all(r3, first, "***"@)
            } else {
                r3
            };
            if utf8_len(second) >= 6 {
                replace_all(a, second, "***"@)
            } else {
                a
            }
        },
        None => r3,
    };
    if token.len() == 0 {
        assert(utf8_len(token) == 0);
    }
    let n = token.len();
    assert(token.take(n as int) =~= token);
    lemma_masked_pattern_gone(r4, token);
    lemma_prefixes_keep_absence(replace_all(r4, token, "***"@), token, (n - 1) as nat);
    assert(sanitize_token_spec(message, token) == mask_prefixes(r4, token, n));
}

} // verus!

verus! {

/// `p` and `to` disagree somewhere once `p` is laid over `to` from
/// position `i` on.
pub open spec fn breaks_at(to: Seq<char>, p: Seq<char>, i: int) -> bool {
    exists|j: int| 0 <= j < p.len() && i + j < to.len() && to[i + j] != #[trigger] p[j]
}

/// Where the first character of `to` occurs in `p` only at its start, a
/// replaced text that begins with a later part of `p` comes from a text
/// that begins with it.
proof fn lemma_shifted_prefix(t: Seq<char>, p: Seq<char>, to: Seq<char>, o: int, k: int)
    requires
        p.len() > 0,
        to.len() > 0,
        forall|j: int| 1 <= j < p.len() ==> #[trigger] p[j] != to[0],
        1 <= o,
        0 <= k,
        o + k <= p.len(),
        k <= replace_all(t, p, to).len(),
        replace_all(t, p, to).take(k) == p.subrange(o, o + k),
    ensures
        k <= t.len(),
        t.take(k) == p.subrange(o, o + k),
    decreases t.len(),
{
    let r = replace_all(t, p, to);
    if k == 0 {
        assert(t.take(0) =~= p.subrange(o, o));
    } else if t.len() < p.len() {
    } else if t.take(p.len() as int) == p {
        assert(r.take(k)[0] == p.subrange(o, o + k)[0]);
        assert(p[o] != to[0]);
    } else {
        let rest = replace_all(t.drop_first(), p, to);
        assert(r == seq![t[0]] + rest);
        assert(r.take(k)[0] == p.subrange(o, o + k)[0]);
        assert(rest.take(k - 1) =~= p.subrange(o + 1, o + k)) by {
            assert forall|j: int| 0 <= j < k - 1 implies #[trigger] rest.take(k - 1)[j] == p.subrange(o + 1, o + k)[j] by {
                assert(r.take(k)[j + 1] == p.subrange(o, o + k)[j + 1]);
            }
        }
        lemma_shifted_prefix(t.drop_first(), p, to, o + 1, k - 1);
        assert(t.take(k) =~= seq![t[0]] + t.drop_first().take(k - 1));
    }
}

/// Replacing every `p` by a `to` that cannot start a new `p` leaves no
/// `p` behind: `p` breaks off wherever it would start inside `to`, and the
/// first character of `to` occurs in `p` only at its start.
pub(crate) proof fn lemma_replaced_pattern_gone(s: Seq<char>, p: Seq<char>, to: Seq<char>)
    requires
        p.len() > 0,
        to.len() > 0,
        forall|j: int| 1 <= j < p.len() ==> #[trigger] p[j] != to[0],
        forall|i: int| 0 <= i < to.len() ==> #[trigger] breaks_at(to, p, i),
    ensures
        !contains_text(replace_all(s, p, to), p),
    decreases s.len(),
{
    let r = replace_all(s, p, to);
    if s.len() < p.len() {
    } else if s.take(p.len() as int) == p {
        let rest = replace_all(s.skip(p.len() as int), p, to);
        lemma_replaced_pattern_gone(s.skip(p.len() as int), p, to);
        assert(r == to + rest);
        if contains_text(r, p) {
            let i = choose|i: int| 0 <= i <= r.len() - p.len() && #[trigger] r.subrange(i, i + p.len()) == p;
            if i < to.len() {
                assert(breaks_at(to, p, i));
                let j = choose|j: int| 0 <= j < p.len() && i + j < to.len() && to[i + j] != #[trigger] p[j];
                assert(r.subrange(i, i + p.len())[j] == r[i + j]);
            } else {
                lemma_occurrence_after(to, rest, p, i);
            }
        }
    } else {
        let t = s.drop_first();
        let rest = replace_all(t, p, to);
        lemma_replaced_pattern_gone(t, p, to);
        assert(r == seq![s[0]] + rest);
        if contains_text(r, p) {
            let i = choose|i: int| 0 <= i <= r.len() - p.len() && #[trigger] r.subrange(i, i + p.len()) == p;
            if i >= 1 {
                lemma_occurrence_after(seq![s[0]], rest, p, i);
            } else {
                let k = p.len() - 1;
                assert(rest.take(k) =~= p.subrange(1, 1 + k)) by {
                    assert forall|j: int| 0 <= j < k implies #[trigger] rest.take(k)[j] == p.subrange(1, 1 + k)[j] by {
                        assert(r.subrange(0, p.len() as int)[j + 1] == p[j + 1]);
                    }
                }
                lemma_shifted_prefix(t, p, to, 1, k);
                assert(r.subrange(0, p.len() as int)[0] == p[0]);
                assert(r[0] == s[0]);
                assert(s.take(p.len() as int) =~= seq![s[0]] + t.take(k));
                assert(seq![p[0]] + p.subrange(1, 1 + k) =~= p);
            }
        }
    }
}

/// Replacing a pattern that does not occur changes nothing.
pub(crate) proof fn lemma_replace_absent(s: Seq<char>, p: Seq<char>, to: Seq<char>)
    requires
        !contains_text(s, p),
    ensures
        replace_all(s, p, to) == s,
    decreases s.len(),
{
    if p.len() == 0 || s.len() < p.len() {
    } else if s.take(p.len() as int) == p {
        assert(s.subrange(0, 0 + p.len() as int) == p);
        assert(contains_text(s, p));
    } else {
        if contains_text(s.drop_first(), p) {
            assert(s.drop_first() =~= s.skip(1));
            lemma_contains_in_tail(s, 1, p);
        }
        lemma_replace_absent(s.drop_first(), p, to);
        assert(seq![s[0]] + s.drop_first() =~= s);
    }
}

} // verus!

verus! {

/// No non-empty secret occurs in a message once its secrets are hidden.
pub proof fn sanitized_hides_secrets(message: Seq<char>, secrets: Seq<Seq<char>>)
    ensures
        forall|j: int|
            0 <= j < secrets.len() && secrets[j].len() > 0 ==> !contains_text(
                sanitized(message, secrets),
                #[trigger] secrets[j],
            ),
{
    lemma_scrubbed_clean(sanitize_all(message, secrets), secrets);
}

/// Masking with one list of secrets and then another is masking with the
/// two lists joined; masking with no secret, or only with empty ones,
/// leaves the message as it is, and so does hiding them.
pub proof fn masking_composes(message: Seq<char>, first: Seq<Seq<char>>, second: Seq<Seq<char>>)
    ensures
        sanitize_all(message, first + second) == sanitize_all(sanitize_all(message, first), second),
        sanitize_all(message, Seq::empty()) == message,
        sanitized(message, Seq::empty()) == message,
        sanitized(message, seq![Seq::<char>::empty()]) == message,
    decreases second.len(),
{
    if second.len() == 0 {
        assert(first + second =~= first);
    } else {
        masking_composes(message, first, second.drop_last());
        assert((first + second).drop_last() =~= first + second.drop_last());
        assert((first + second).last() == second.last());
    }
    let one = seq![Seq::<char>::empty()];
    assert(one.drop_last() =~= Seq::<Seq<char>>::empty());
    assert(first_present(message, one, 1) is None);
}

} // verus!

verus! {

/// Masking a token's prefixes cannot make any starless text appear.
proof fn lemma_prefixes_keep_text_absent(r: Seq<char>, token: Seq<char>, p: Seq<char>, k: nat)
    requires
        k <= token.len(),
        p.len() > 0,
        starless(p),
        !contains_text(r, p),
    ensures
        !contains_text(mask_prefixes(r, token, k), p),
    decreases k,
{
    if k > 0 {
        let r2 = if utf8_len(token.take(k as int)) >= 8 {
            replace_all(r, token.take(k as int), "***"@)
        } else {
            r
        };
        if utf8_len(token.take(k as int)) >= 8 {
            lemma_mask_keeps_absence(r, token.take(k as int), p);
        }
        lemma_prefixes_keep_text_absent(r2, token, p, (k - 1) as nat);
    }
}

/// For a token with a `.`, each side of the first `.` that has at least six
/// UTF-8 bytes and no `*` no longer occurs in the masked message.
pub proof fn dotted_token_sides_are_hidden(message: Seq<char>, token: Seq<char>)
    requires
        find_char(token, '.') is Some,
    ensures
        ({
            let d = find_char(token, '.').unwrap();
            let first = token.take(d);
            let second = token.skip(d + 1);
            &&& utf8_len(first) >= 6 && starless(first) ==> !contains_text(
                sanitize_token_spec(message, token),
                first,
            )
            &&& utf8_len(second) >= 6 && starless(second) ==> !contains_text(
                sanitize_token_spec(message, token),
                second,
            )
        }),
{
    let d = find_char(token, '.').unwrap();
    crate::text::lemma_find_char_bounds(token, '.');
    let first = token.take(d);
    let second = token.skip(d + 1);
    let r1 = replace_all(message, token.push('.'), Seq::empty());
    let r2 = replace_all(r1, token.push('-'), Seq::empty());
    let r3 = replace_all(r2, token, Seq::empty());
    let a = if utf8_len(first) >= 6 {
        replace_all(r3, first, "***"@)
    } else {
        r3
    };
    let r4 = if utf8_len(second) >= 6 {
        replace_all(a, second, "***"@)
    } else {
        a
    };
    if utf8_len(first) >= 6 && starless(first) {
        if first.len() == 0 {
            assert(utf8_len(first) == 0);
        }
        lemma_masked_pattern_gone(r3, first);
        if utf8_len(second) >= 6 {
            if second.len() == 0 {
                assert(utf8_len(second) == 0);
            }
            lemma_mask_keeps_absence(a, second, first);
        }
        if utf8_len(token) >= 10 {
            lemma_prefixes_keep_text_absent(r4, token, first, token.len());
        }
    }
    if utf8_len(second) >= 6 && starless(second) {
        if second.len() == 0 {
            assert(utf8_len(second) == 0);
        }
        lemma_masked_pattern_gone(a, second);
        if utf8_len(token) >= 10 {
            lemma_prefixes_keep_text_absent(r4, token, second, token.len());
        }
    }
}

} // verus!
