use vstd::prelude::*;

verus! {

/// Strict lexicographic order on character sequences, comparing scalar
/// values position by position.  On the ASCII names this library uses it
/// agrees with the ordering of `str`.
pub open spec fn seq_str_lt(a: Seq<char>, b: Seq<char>) -> bool
    decreases a.len(),
{
    if b.len() == 0 {
        false
    } else if a.len() == 0 {
        true
    } else if a[0] != b[0] {
        a[0] < b[0]
    } else {
        seq_str_lt(a.drop_first(), b.drop_first())
    }
}

/// Skipping a common prefix does not change how two sequences compare.
pub proof fn lemma_seq_str_lt_common_prefix(a: Seq<char>, b: Seq<char>, i: int)
    requires
        0 <= i <= a.len(),
        i <= b.len(),
        a.subrange(0, i) == b.subrange(0, i),
    ensures
        seq_str_lt(a, b) == seq_str_lt(a.subrange(i, a.len() as int), b.subrange(i, b.len() as int)),
    decreases i,
{
    if i == 0 {
        assert(a.subrange(0, a.len() as int) =~= a);
        assert(b.subrange(0, b.len() as int) =~= b);
    } else {
        assert(a[0] == a.subrange(0, i)[0]);
        assert(b[0] == b.subrange(0, i)[0]);
        let a1 = a.drop_first();
        let b1 = b.drop_first();
        assert(a1.subrange(0, i - 1) =~= a.subrange(0, i).drop_first());
        assert(b1.subrange(0, i - 1) =~= b.subrange(0, i).drop_first());
        lemma_seq_str_lt_common_prefix(a1, b1, i - 1);
        assert(a1.subrange(i - 1, a1.len() as int) =~= a.subrange(i, a.len() as int));
        assert(b1.subrange(i - 1, b1.len() as int) =~= b.subrange(i, b.len() as int));
    }
}

/// No sequence compares below itself.
pub proof fn lemma_seq_str_lt_irrefl(a: Seq<char>)
    ensures
        !seq_str_lt(a, a),
    decreases a.len(),
{
    if a.len() > 0 {
        lemma_seq_str_lt_irrefl(a.drop_first());
    }
}

/// Two distinct sequences compare one way or the other.
pub proof fn lemma_seq_str_lt_connected(a: Seq<char>, b: Seq<char>)
    requires
        a != b,
    ensures
        seq_str_lt(a, b) || seq_str_lt(b, a),
    decreases a.len(),
{
    if a.len() == 0 && b.len() == 0 {
        assert(a =~= b);
    } else if a.len() > 0 && b.len() > 0 {
        if a[0] == b[0] {
            if a.drop_first() == b.drop_first() {
                assert(a.drop_first().len() == a.len() - 1);
                assert(b.drop_first().len() == b.len() - 1);
                assert(a.len() == b.len());
                assert forall|i: int| 0 <= i < a.len() implies a[i] == b[i] by {
                    if i > 0 {
                        assert(a[i] == a.drop_first()[i - 1]);
                        assert(b[i] == b.drop_first()[i - 1]);
                    }
                }
                assert(a =~= b);
            }
            lemma_seq_str_lt_connected(a.drop_first(), b.drop_first());
        }
    }
}

/// The order on sequences is transitive.
pub proof fn lemma_seq_str_lt_trans(a: Seq<char>, b: Seq<char>, c: Seq<char>)
    requires
        seq_str_lt(a, b),
        seq_str_lt(b, c),
    ensures
        seq_str_lt(a, c),
    decreases a.len(),
{
    if a.len() > 0 && b.len() > 0 && c.len() > 0 {
        if a[0] == b[0] && b[0] == c[0] {
            lemma_seq_str_lt_trans(a.drop_first(), b.drop_first(), c.drop_first());
        }
    }
}

/// Relies on `String::from_utf8`: returns the decoded string exactly when
/// the bytes are valid UTF-8, and nothing otherwise.  Validity and the
/// decoded characters are stated by `vstd::utf8`.
#[verifier::external_body]
pub(crate) fn utf8_to_string(bytes: Vec<u8>) -> (r: Option<String>)
    ensures
        match r {
            Some(s) => vstd::utf8::valid_utf8(bytes@) && s@ == vstd::utf8::decode_utf8(bytes@),
            None => !vstd::utf8::valid_utf8(bytes@),
        },
{
    String::from_utf8(bytes).ok()
}

/// Character-by-character equality of two string slices.
pub fn str_eq(a: &str, b: &str) -> (r: bool)
    ensures
        r == (a@ == b@),
{
    let n = a.unicode_len();
    let m = b.unicode_len();
    if n != m {
        return false;
    }
    let mut i: usize = 0;
    while i < n
        invariant
            0 <= i <= n,
            n == a@.len(),
            n == b@.len(),
            forall|k: int| 0 <= k < i ==> a@[k] == b@[k],
        decreases n - i,
    {
        if a.get_char(i) != b.get_char(i) {
            assert(a@[i as int] != b@[i as int]);
            return false;
        }
        i = i + 1;
    }
    proof {
        assert(a@ =~= b@);
    }
    true
}

/// Character-by-character comparison of two string slices, deciding
/// [`seq_str_lt`].
pub fn str_lt(a: &str, b: &str) -> (r: bool)
    ensures
        r == seq_str_lt(a@, b@),
{
    let n = a.unicode_len();
    let m = b.unicode_len();
    let mut i: usize = 0;
    loop
        invariant
            0 <= i <= n,
            i <= m,
            n == a@.len(),
            m == b@.len(),
            a@.subrange(0, i as int) == b@.subrange(0, i as int),
        ensures
            i <= n,
            i <= m,
            a@.subrange(0, i as int) == b@.subrange(0, i as int),
            (i < n && i < m && a@[i as int] != b@[i as int] && seq_str_lt(a@, b@) == (a@[i as int]
                < b@[i as int])) || (i == n && seq_str_lt(a@, b@) == (n < m)) || (i == m && m < n
                && !seq_str_lt(a@, b@)),
        decreases n - i,
    {
        proof {
            lemma_seq_str_lt_common_prefix(a@, b@, i as int);
        }
        if i == n {
            break;
        }
        if i == m {
            break;
        }
        let ca = a.get_char(i);
        let cb = b.get_char(i);
        if ca != cb {
            break;
        }
        proof {
            assert(a@.subrange(0, i + 1 as int) =~= a@.subrange(0, i as int).push(a@[i as int]));
            assert(b@.subrange(0, i + 1 as int) =~= b@.subrange(0, i as int).push(b@[i as int]));
        }
        i = i + 1;
    }
    if i < n && i < m {
        let ca = a.get_char(i);
        let cb = b.get_char(i);
        ca < cb
    } else {
        i == n && i < m
    }
}

/// The characters this library strips from the ends of a protocol line:
/// the ASCII blank, carriage return, line feed and horizontal tab.
pub open spec fn spec_is_blank(c: char) -> bool {
    c == ' ' || c == '\r' || c == '\n' || c == '\t'
}

/// A sequence with its leading blanks removed.
pub open spec fn trim_start_spec(s: Seq<char>) -> Seq<char>
    decreases s.len(),
{
    if s.len() > 0 && spec_is_blank(s[0]) {
        trim_start_spec(s.drop_first())
    } else {
        s
    }
}

/// A sequence with its trailing blanks removed.
pub open spec fn trim_end_spec(s: Seq<char>) -> Seq<char>
    decreases s.len(),
{
    if s.len() > 0 && spec_is_blank(s.last()) {
        trim_end_spec(s.drop_last())
    } else {
        s
    }
}

/// A sequence with blanks removed from both ends.
pub open spec fn trim_spec(s: Seq<char>) -> Seq<char> {
    trim_end_spec(trim_start_spec(s))
}

proof fn lemma_trim_start_at(s: Seq<char>, i: int)
    requires
        0 <= i <= s.len(),
        forall|k: int| 0 <= k < i ==> spec_is_blank(s[k]),
        i < s.len() ==> !spec_is_blank(s[i]),
    ensures
        trim_start_spec(s) == s.subrange(i, s.len() as int),
    decreases i,
{
    if i == 0 {
        if s.len() > 0 && spec_is_blank(s[0]) {
            assert(false);
        }
        assert(s.subrange(0, s.len() as int) =~= s);
    } else {
        let s1 = s.drop_first();
        lemma_trim_start_at(s1, i - 1);
        assert(s1.subrange(i - 1, s1.len() as int) =~= s.subrange(i, s.len() as int));
    }
}

proof fn lemma_trim_end_at(s: Seq<char>, j: int)
    requires
        0 <= j <= s.len(),
        forall|k: int| j <= k < s.len() ==> spec_is_blank(s[k]),
        j > 0 ==> !spec_is_blank(s[j - 1]),
    ensures
        trim_end_spec(s) == s.subrange(0, j),
    decreases s.len() - j,
{
    if j == s.len() {
        if s.len() > 0 && spec_is_blank(s.last()) {
            let s1 = s.drop_last();
            lemma_trim_end_at(s1, j - 1);
            assert(false);
        } else {
            assert(s.subrange(0, s.len() as int) =~= s);
        }
    } else {
        let s1 = s.drop_last();
        lemma_trim_end_at(s1, j);
        assert(s1.subrange(0, j) =~= s.subrange(0, j));
    }
}

fn is_blank(c: char) -> (r: bool)
    ensures
        r == spec_is_blank(c),
{
    c == ' ' || c == '\r' || c == '\n' || c == '\t'
}

/// Removes blanks from both ends of a string slice, as a protocol line is
/// cleaned before it is matched against the command vocabulary.
pub fn trim(s: &str) -> (r: &str)
    ensures
        r@ == trim_spec(s@),
{
    let n = s.unicode_len();
    let mut i: usize = 0;
    while i < n && is_blank(s.get_char(i))
        invariant
            0 <= i <= n,
            n == s@.len(),
            forall|k: int| 0 <= k < i ==> spec_is_blank(s@[k]),
        decreases n - i,
    {
        i = i + 1;
    }
    let mut j: usize = n;
    while j > i && is_blank(s.get_char(j - 1))
        invariant
            i <= j <= n,
            n == s@.len(),
            forall|k: int| j <= k < n ==> spec_is_blank(s@[k]),
        decreases j,
    {
        j = j - 1;
    }
    proof {
        lemma_trim_start_at(s@, i as int);
        let t = s@.subrange(i as int, n as int);
        if j == i {
            lemma_trim_end_at(t, 0);
        } else {
            lemma_trim_end_at(t, j - i);
        }
        assert(t.subrange(0, j - i) =~= s@.subrange(i as int, j as int));
    }
    s.substring_char(i, j)
}

} // verus!
