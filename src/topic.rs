//! Validation and canonicalisation of partition, namespace and topic names.
use vstd::prelude::*;
use vstd::string::StrSliceExecFns;
use vstd::string::StringExecFns;

use crate::text::chars_of;

verus! {

/// Longest name accepted, in characters.
pub const MAX_NAME_LENGTH: usize = 65535;

/// Why a name was refused.
#[derive(Debug, Clone, Copy, PartialEq, Eq, Structural)]
pub enum TopicError {
    /// The partition, namespace or topic breaks the naming rule.
    InvalidName,
    /// The fully qualified name would be longer than `MAX_NAME_LENGTH`.
    NameTooLong,
    /// The string is not of the form `@<partition>@<topic>`.
    Malformed,
}

/// Position `j` of `s` starts a forbidden character or character pair:
/// `~`, a space, `@`, `//` or `:=`.
pub open spec fn bad_at(s: Seq<char>, j: int) -> bool {
    ||| s[j] == '~'
    ||| s[j] == ' '
    ||| s[j] == '@'
    ||| (j + 1 < s.len() && s[j] == '/' && s[j + 1] == '/')
    ||| (j + 1 < s.len() && s[j] == ':' && s[j + 1] == '=')
}

/// `s` holds none of the forbidden characters or pairs.
pub open spec fn clean(s: Seq<char>) -> bool {
    forall|j: int| 0 <= j < s.len() ==> !#[trigger] bad_at(s, j)
}

/// The naming rule for namespaces (and partitions): empty, or short enough,
/// not `/` alone, and clean.
pub open spec fn valid_namespace(s: Seq<char>) -> bool {
    s.len() == 0 || (s.len() <= MAX_NAME_LENGTH && s != seq!['/'] && clean(s))
}

pub open spec fn valid_partition(s: Seq<char>) -> bool {
    valid_namespace(s)
}

/// A topic is a non-empty valid namespace.
pub open spec fn valid_topic(s: Seq<char>) -> bool {
    valid_namespace(s) && s.len() > 0
}

/// The partition with a leading `/` added and a trailing `/` removed.
pub open spec fn norm_partition(p: Seq<char>) -> Seq<char> {
    let p1 = if p.len() > 0 && p[0] != '/' { seq!['/'] + p } else { p };
    if p1.len() > 0 && p1.last() == '/' { p1.drop_last() } else { p1 }
}

/// The namespace with a trailing and a leading `/`.
pub open spec fn norm_namespace(ns: Seq<char>) -> Seq<char> {
    let n1 = if ns.len() == 0 || ns.last() != '/' { ns.push('/') } else { ns };
    if n1[0] != '/' { seq!['/'] + n1 } else { n1 }
}

/// The topic without a trailing `/`.
pub open spec fn norm_topic(t: Seq<char>) -> Seq<char> {
    if t.len() > 0 && t.last() == '/' { t.drop_last() } else { t }
}

/// The part after the second `@`: an absolute topic as it is, a relative one
/// under the namespace.
pub open spec fn scoped_topic(ns: Seq<char>, t: Seq<char>) -> Seq<char> {
    let t1 = norm_topic(t);
    if t1.len() > 0 && t1[0] == '/' { t1 } else { norm_namespace(ns) + t1 }
}

/// `@<partition>@<namespace>/<topic>`.
pub open spec fn qualified(p: Seq<char>, ns: Seq<char>, t: Seq<char>) -> Seq<char> {
    seq!['@'] + norm_partition(p) + seq!['@'] + scoped_topic(ns, t)
}

/// The index of the last `c` in `s`, or -1.
pub open spec fn last_index_of(s: Seq<char>, c: char) -> int
    decreases s.len(),
{
    if s.len() == 0 {
        -1
    } else if s.last() == c {
        s.len() - 1
    } else {
        last_index_of(s.drop_last(), c)
    }
}

/// The index of the second `@` when `s` reads `@<partition>@<topic>` with a
/// non-empty topic.
pub open spec fn well_framed(s: Seq<char>) -> bool {
    &&& s.len() > 0
    &&& s[0] == '@'
    &&& last_index_of(s, '@') > 0
    &&& last_index_of(s, '@') != s.len() - 1
}

pub open spec fn framed_partition(s: Seq<char>) -> Seq<char> {
    s.subrange(1, last_index_of(s, '@'))
}

pub open spec fn framed_topic(s: Seq<char>) -> Seq<char> {
    s.subrange(last_index_of(s, '@') + 1, s.len() as int)
}

fn char_eq_at(v: &Vec<char>, i: usize, c: char) -> (r: bool)
    ensures
        r == (i < v@.len() && v@[i as int] == c),
{
    i < v.len() && v[i] == c
}

fn clean_chars(v: &Vec<char>) -> (r: bool)
    ensures
        r == clean(v@),
{
    let n = v.len();
    let mut i: usize = 0;
    while i < n
        invariant
            n == v@.len(),
            i <= n,
            forall|j: int| 0 <= j < i ==> !#[trigger] bad_at(v@, j),
        decreases n - i,
    {
        let c = v[i];
        let bad = c == '~' || c == ' ' || c == '@'
            || (c == '/' && char_eq_at(v, i + 1, '/'))
            || (c == ':' && char_eq_at(v, i + 1, '='));
        if bad {
            assert(bad_at(v@, i as int));
            return false;
        }
        i = i + 1;
    }
    true
}

fn valid_namespace_chars(v: &Vec<char>) -> (r: bool)
    ensures
        r == valid_namespace(v@),
{
    if v.len() == 0 {
        return true;
    }
    if v.len() > MAX_NAME_LENGTH {
        return false;
    }
    if v.len() == 1 && v[0] == '/' {
        assert(v@ =~= seq!['/']);
        return false;
    }
    assert(v@ != seq!['/']) by {
        if v@ == seq!['/'] {
            assert(v@[0] == seq!['/'][0]);
        }
    }
    clean_chars(v)
}

/// Whether `ns` may serve as a namespace.
pub fn is_valid_namespace(ns: &str) -> (r: bool)
    ensures
        r == valid_namespace(ns@),
{
    let v = chars_of(ns);
    valid_namespace_chars(&v)
}

/// Whether `partition` may serve as a partition: the namespace rule.
pub fn is_valid_partition(partition: &str) -> (r: bool)
    ensures
        r == valid_partition(partition@),
{
    is_valid_namespace(partition)
}

/// Whether `topic` may serve as a topic: a non-empty valid namespace.
pub fn is_valid_topic(topic: &str) -> (r: bool)
    ensures
        r == valid_topic(topic@),
{
    let v = chars_of(topic);
    v.len() > 0 && valid_namespace_chars(&v)
}

fn owned(s: &str) -> (r: String)
    ensures
        r@ == s@,
{
    String::from_str(s)
}

fn slash() -> (r: String)
    ensures
        r@ == seq!['/'],
{
    let s = "/";
    proof {
        reveal_strlit("/");
    }
    String::from_str(s)
}

fn at_sign() -> (r: String)
    ensures
        r@ == seq!['@'],
{
    let s = "@";
    proof {
        reveal_strlit("@");
    }
    String::from_str(s)
}

fn without_last(s: &String) -> (r: String)
    requires
        s@.len() > 0,
    ensures
        r@ == s@.drop_last(),
{
    let n = s.as_str().unicode_len();
    let t = s.as_str().substring_char(0, n - 1);
    String::from_str(t)
}

fn first_is(s: &String, c: char) -> (r: bool)
    ensures
        r == (s@.len() > 0 && s@[0] == c),
{
    let v = chars_of(s.as_str());
    v.len() > 0 && v[0] == c
}

fn last_is(s: &String, c: char) -> (r: bool)
    ensures
        r == (s@.len() > 0 && s@.last() == c),
{
    let v = chars_of(s.as_str());
    v.len() > 0 && v[v.len() - 1] == c
}

fn partition_part(partition: &str) -> (r: String)
    ensures
        r@ == norm_partition(partition@),
{
    let mut p = owned(partition);
    let v = chars_of(partition);
    if v.len() > 0 && v[0] != '/' {
        let mut q = slash();
        q.append(p.as_str());
        p = q;
    }
    if last_is(&p, '/') {
        p = without_last(&p);
    }
    p
}

fn namespace_part(ns: &str) -> (r: String)
    ensures
        r@ == norm_namespace(ns@),
{
    let mut n = owned(ns);
    if !last_is(&n, '/') {
        n.append("/");
        proof {
            reveal_strlit("/");
        }
    }
    assert(n@.len() > 0);
    if !first_is(&n, '/') {
        let mut q = slash();
        q.append(n.as_str());
        n = q;
    }
    n
}

fn topic_part(ns: &str, topic: &str) -> (r: String)
    ensures
        r@ == scoped_topic(ns@, topic@),
{
    let mut t = owned(topic);
    if last_is(&t, '/') {
        t = without_last(&t);
    }
    if first_is(&t, '/') {
        t
    } else {
        let mut n = namespace_part(ns);
        n.append(t.as_str());
        n
    }
}

/// The fully qualified name `@<partition>@<namespace>/<topic>`; an absolute
/// topic (leading `/`) leaves the namespace out.
pub fn fully_qualified_name(partition: &str, ns: &str, topic: &str) -> (r: Result<String, TopicError>)
    ensures
        match r {
            Ok(name) => {
                &&& valid_partition(partition@)
                &&& valid_namespace(ns@)
                &&& valid_topic(topic@)
                &&& name@ == qualified(partition@, ns@, topic@)
                &&& name@.len() <= MAX_NAME_LENGTH
            },
            Err(e) => {
                ||| (e == TopicError::InvalidName && !(valid_partition(partition@) && valid_namespace(ns@) && valid_topic(topic@)))
                ||| (e == TopicError::NameTooLong && valid_partition(partition@) && valid_namespace(ns@) && valid_topic(topic@)
                    && qualified(partition@, ns@, topic@).len() > MAX_NAME_LENGTH)
            },
        },
{
    if !is_valid_partition(partition) || !is_valid_namespace(ns) || !is_valid_topic(topic) {
        return Err(TopicError::InvalidName);
    }
    let p = partition_part(partition);
    let t = topic_part(ns, topic);
    let mut name = at_sign();
    name.append(p.as_str());
    let a = at_sign();
    name.append(a.as_str());
    name.append(t.as_str());
    assert(name@ =~= qualified(partition@, ns@, topic@));
    if name.as_str().unicode_len() > MAX_NAME_LENGTH {
        return Err(TopicError::NameTooLong);
    }
    Ok(name)
}

fn last_at(v: &Vec<char>) -> (r: Option<usize>)
    ensures
        match r {
            Some(i) => i == last_index_of(v@, '@'),
            None => last_index_of(v@, '@') == -1,
        },
{
    let mut i: usize = v.len();
    assert(v@.subrange(0, i as int) =~= v@);
    while i > 0
        invariant
            i <= v@.len(),
            last_index_of(v@, '@') == last_index_of(v@.subrange(0, i as int), '@'),
        decreases i,
    {
        let ghost s = v@.subrange(0, i as int);
        assert(s.drop_last() =~= v@.subrange(0, i - 1));
        if v[i - 1] == '@' {
            return Some(i - 1);
        }
        i = i - 1;
    }
    None
}

/// Splits `@<partition>@<topic>` into its partition and its topic.
pub fn decompose_fully_qualified_topic(fully_qualified_name: &str) -> (r: Result<(String, String), TopicError>)
    ensures
        match r {
            Ok((p, t)) => {
                &&& well_framed(fully_qualified_name@)
                &&& p@ == framed_partition(fully_qualified_name@)
                &&& t@ == framed_topic(fully_qualified_name@)
                &&& valid_partition(p@)
                &&& valid_topic(t@)
            },
            Err(e) => {
                &&& e == TopicError::Malformed
                &&& !(well_framed(fully_qualified_name@) && valid_partition(framed_partition(fully_qualified_name@))
                    && valid_topic(framed_topic(fully_qualified_name@)))
            },
        },
{
    let v = chars_of(fully_qualified_name);
    if v.len() == 0 || v[0] != '@' {
        return Err(TopicError::Malformed);
    }
    let last = last_at(&v);
    match last {
        None => Err(TopicError::Malformed),
        Some(l) => {
            if l == 0 || l == v.len() - 1 {
                return Err(TopicError::Malformed);
            }
            proof {
                lemma_last_index_bound(v@, '@');
            }
            let p = fully_qualified_name.substring_char(1, l);
            let t = fully_qualified_name.substring_char(l + 1, v.len());
            if !is_valid_partition(p) || !is_valid_topic(t) {
                return Err(TopicError::Malformed);
            }
            Ok((String::from_str(p), String::from_str(t)))
        },
    }
}

pub proof fn lemma_last_index_bound(s: Seq<char>, c: char)
    ensures
        -1 <= last_index_of(s, c) < s.len(),
        last_index_of(s, c) >= 0 ==> s[last_index_of(s, c)] == c,
        forall|j: int| last_index_of(s, c) < j < s.len() ==> s[j] != c,
    decreases s.len(),
{
    if s.len() > 0 && s.last() != c {
        let t = s.drop_last();
        lemma_last_index_bound(t, c);
        assert forall|j: int| last_index_of(s, c) < j < s.len() implies s[j] != c by {
            if j < t.len() {
                assert(s[j] == t[j]);
            }
        }
    }
}


/// Joining `a` and `b` creates no forbidden pair at the seam.
pub open spec fn seam_ok(a: Seq<char>, b: Seq<char>) -> bool {
    a.len() == 0 || b.len() == 0 || !((a.last() == '/' && b[0] == '/') || (a.last() == ':' && b[0] == '='))
}

proof fn lemma_clean_concat(a: Seq<char>, b: Seq<char>)
    requires
        clean(a),
        clean(b),
        seam_ok(a, b),
    ensures
        clean(a + b),
{
    let c = a + b;
    assert forall|j: int| 0 <= j < c.len() implies !#[trigger] bad_at(c, j) by {
        if j < a.len() {
            assert(c[j] == a[j]);
            assert(!bad_at(a, j));
            if j + 1 < a.len() {
                assert(c[j + 1] == a[j + 1]);
            } else if j + 1 < c.len() {
                assert(c[j + 1] == b[0]);
            }
        } else {
            assert(c[j] == b[j - a.len()]);
            assert(!bad_at(b, j - a.len()));
            if j + 1 < c.len() {
                assert(c[j + 1] == b[j + 1 - a.len()]);
            }
        }
    }
}

proof fn lemma_clean_sub(s: Seq<char>, i: int, k: int)
    requires
        clean(s),
        0 <= i <= k <= s.len(),
    ensures
        clean(s.subrange(i, k)),
{
    let t = s.subrange(i, k);
    assert forall|j: int| 0 <= j < t.len() implies !#[trigger] bad_at(t, j) by {
        assert(t[j] == s[i + j]);
        assert(!bad_at(s, i + j));
        if j + 1 < t.len() {
            assert(t[j + 1] == s[i + j + 1]);
        }
    }
}

proof fn lemma_clean_single(c: char)
    requires
        c != '~' && c != ' ' && c != '@',
    ensures
        clean(seq![c]),
{
    assert(!bad_at(seq![c], 0));
}

/// A clean sequence whose last character is `/` right after dropping a `/`
/// would hold `//`.
proof fn lemma_drop_slash(s: Seq<char>)
    requires
        clean(s),
        s.len() >= 2,
        s.last() == '/',
    ensures
        s.drop_last().last() != '/',
        clean(s.drop_last()),
{
    assert(!bad_at(s, s.len() - 2));
    lemma_clean_sub(s, 0, s.len() - 1);
    assert(s.drop_last() =~= s.subrange(0, s.len() - 1));
}

proof fn lemma_last_at_after(a: Seq<char>, b: Seq<char>)
    requires
        !b.contains('@'),
    ensures
        last_index_of(a + seq!['@'] + b, '@') == a.len(),
    decreases b.len(),
{
    let s = a + seq!['@'] + b;
    if b.len() == 0 {
        assert(s.last() == '@');
    } else {
        assert(s.last() == b.last());
        assert(b.contains(b.last()) ==> b.last() != '@');
        assert(b.contains(b[b.len() - 1]));
        assert(s.drop_last() =~= a + seq!['@'] + b.drop_last());
        assert forall|c: char| b.drop_last().contains(c) implies b.contains(c) by {
            let k = choose|k: int| 0 <= k < b.drop_last().len() && b.drop_last()[k] == c;
            assert(b[k] == c);
        }
        lemma_last_at_after(a, b.drop_last());
    }
}

proof fn lemma_clean_no_at(s: Seq<char>)
    requires
        clean(s),
    ensures
        !s.contains('@'),
{
    if s.contains('@') {
        let k = choose|k: int| 0 <= k < s.len() && s[k] == '@';
        assert(bad_at(s, k));
    }
}

/// The partition part: clean, led by `/` and not ending in `/`.
proof fn lemma_norm_partition(p: Seq<char>)
    requires
        valid_partition(p),
    ensures
        clean(norm_partition(p)),
        norm_partition(p).len() > 0 ==> norm_partition(p)[0] == '/' && norm_partition(p).last() != '/'
            && norm_partition(p).len() >= 2,
        norm_partition(p).len() <= p.len() + 1,
{
    if p.len() > 0 {
        let p1 = if p[0] != '/' { seq!['/'] + p } else { p };
        if p[0] != '/' {
            lemma_clean_single('/');
            lemma_clean_concat(seq!['/'], p);
        }
        if p1.last() == '/' {
            if p1.len() == 1 {
                assert(p1 == p);
                assert(p =~= seq!['/']);
            }
            lemma_drop_slash(p1);
            assert(p1.drop_last()[0] == p1[0]);
        }
    }
}

/// The scoped topic: clean, led by `/`, at least two characters, not ending
/// in `/`.
proof fn lemma_scoped_topic(ns: Seq<char>, t: Seq<char>)
    requires
        valid_namespace(ns),
        valid_topic(t),
    ensures
        clean(scoped_topic(ns, t)),
        scoped_topic(ns, t).len() >= 2,
        scoped_topic(ns, t)[0] == '/',
        scoped_topic(ns, t).last() != '/',
{
    let t1 = norm_topic(t);
    if t.last() == '/' {
        if t.len() == 1 {
            assert(t =~= seq!['/']);
        }
        lemma_drop_slash(t);
    }
    assert(t1.len() > 0 && t1.last() != '/' && clean(t1));
    if t1[0] == '/' {
        if t1.len() == 1 {
            assert(t1.last() == '/');
        }
    } else {
        let n1 = if ns.len() == 0 || ns.last() != '/' { ns.push('/') } else { ns };
        lemma_clean_single('/');
        if ns.len() == 0 || ns.last() != '/' {
            assert(ns.push('/') =~= ns + seq!['/']);
            lemma_clean_concat(ns, seq!['/']);
        }
        assert(n1.len() > 0 && n1.last() == '/');
        let nn = norm_namespace(ns);
        if n1[0] != '/' {
            lemma_clean_concat(seq!['/'], n1);
            assert(nn.last() == n1.last());
        }
        assert(clean(nn) && nn.last() == '/' && nn[0] == '/');
        lemma_clean_concat(nn, t1);
        let st = nn + t1;
        assert(st[0] == nn[0]);
        assert(st.last() == t1.last());
    }
}

/// A fully qualified name starts with `@`, splits back into a valid partition
/// and topic, and qualifying those again (with no namespace) gives the same
/// name: canonicalisation is idempotent under re-parsing.
pub proof fn lemma_fully_qualified_name_reparses(p: Seq<char>, ns: Seq<char>, t: Seq<char>)
    requires
        valid_partition(p),
        valid_namespace(ns),
        valid_topic(t),
        qualified(p, ns, t).len() <= MAX_NAME_LENGTH,
    ensures
        qualified(p, ns, t)[0] == '@',
        well_framed(qualified(p, ns, t)),
        framed_partition(qualified(p, ns, t)) == norm_partition(p),
        framed_topic(qualified(p, ns, t)) == scoped_topic(ns, t),
        valid_partition(framed_partition(qualified(p, ns, t))),
        valid_topic(framed_topic(qualified(p, ns, t))),
        qualified(framed_partition(qualified(p, ns, t)), Seq::empty(), framed_topic(qualified(p, ns, t)))
            == qualified(p, ns, t),
{
    let np = norm_partition(p);
    let st = scoped_topic(ns, t);
    let q = qualified(p, ns, t);
    lemma_norm_partition(p);
    lemma_scoped_topic(ns, t);
    assert(q =~= (seq!['@'] + np) + seq!['@'] + st);
    lemma_clean_no_at(st);
    lemma_last_at_after(seq!['@'] + np, st);
    assert(last_index_of(q, '@') == np.len() + 1);
    assert(q.subrange(1, np.len() as int + 1) =~= np);
    assert(q.subrange(np.len() as int + 2, q.len() as int) =~= st);
    if np.len() > 0 {
        assert(np != seq!['/']) by {
            if np == seq!['/'] {
                assert(np.last() == seq!['/'].last());
            }
        }
    }
    assert(st != seq!['/']) by {
        if st == seq!['/'] {
            assert(st.len() == 1);
        }
    }
    assert(norm_partition(np) =~= np);
    assert(norm_topic(st) =~= st);
    assert(scoped_topic(Seq::empty(), st) =~= st);
}

/// The characters that `regex` matches with `\s`: Unicode `White_Space`.
pub open spec fn is_white_space(c: char) -> bool {
    let u = c as u32;
    ||| (0x09 <= u && u <= 0x0d)
    ||| u == 0x20
    ||| u == 0x85
    ||| u == 0xa0
    ||| u == 0x1680
    ||| (0x2000 <= u && u <= 0x200a)
    ||| u == 0x2028
    ||| u == 0x2029
    ||| u == 0x202f
    ||| u == 0x205f
    ||| u == 0x3000
}

/// `s` with every white space character turned into `_`.
pub open spec fn spaces_to_underscores(s: Seq<char>) -> Seq<char> {
    s.map_values(|c: char| if is_white_space(c) { '_' } else { c })
}

/// `s` without `@`, `~`, `//` and `:=`, matched left to right without
/// overlap.
pub open spec fn without_specials(s: Seq<char>) -> Seq<char>
    decreases s.len(),
{
    if s.len() == 0 {
        s
    } else if s[0] == '@' || s[0] == '~' {
        without_specials(s.drop_first())
    } else if s.len() >= 2 && ((s[0] == '/' && s[1] == '/') || (s[0] == ':' && s[1] == '=')) {
        without_specials(s.subrange(2, s.len() as int))
    } else {
        seq![s[0]] + without_specials(s.drop_first())
    }
}

/// The pattern of white space.
pub open spec fn space_pattern() -> Seq<char> {
    seq!['\\', 's']
}

/// The pattern of the forbidden sequences: `@`, `~`, `//` or `:=`.
pub open spec fn specials_pattern() -> Seq<char> {
    seq!['@', '|', '~', '|', '/', '/', '|', ':', '=']
}

/// Relies on `regex::Regex::new` and `regex::Regex::replace_all`: replaces
/// every non-overlapping match of `pattern` in `text`, leftmost first, by
/// `rep`. `new` fails only on a syntax error or an exceeded size limit, so
/// the two patterns used here compile; `\s` is `\p{White_Space}`.
#[verifier::external_body]
fn replace_all(pattern: &str, text: &str, rep: &str) -> (r: Option<String>)
    ensures
        r is None ==> !(pattern@ == space_pattern() || pattern@ == specials_pattern()),
        r matches Some(x) ==> (pattern@ == space_pattern() && rep@ == seq!['_'] ==> x@ == spaces_to_underscores(text@)),
        r matches Some(x) ==> (pattern@ == specials_pattern() && rep@.len() == 0 ==> x@ == without_specials(text@)),
{
    match regex::Regex::new(pattern) {
        Ok(re) => Some(re.replace_all(text, rep).to_string()),
        Err(_) => None,
    }
}

/// `s` with a leading `/` added when it is non-empty and lacks one.
pub open spec fn with_leading_slash(s: Seq<char>) -> Seq<char> {
    if s.len() > 0 && s[0] != '/' { seq!['/'] + s } else { s }
}

/// Turns a string from which spaces and forbidden sequences were already
/// replaced into a topic: adds a leading `/` and checks the naming rule.
pub fn topic_from_cleaned(cleaned: &str) -> (r: Result<String, TopicError>)
    ensures
        match r {
            Ok(t) => t@ == with_leading_slash(cleaned@) && valid_topic(t@),
            Err(e) => e == TopicError::InvalidName && !valid_topic(with_leading_slash(cleaned@)),
        },
{
    let v = chars_of(cleaned);
    let mut t = owned(cleaned);
    if v.len() > 0 && v[0] != '/' {
        let mut q = slash();
        q.append(cleaned);
        t = q;
    }
    if !is_valid_topic(t.as_str()) {
        return Err(TopicError::InvalidName);
    }
    Ok(t)
}

/// What `as_valid_topic` builds from `topic` before the final check: white
/// space turned into `_`, then `@`, `~`, `//` and `:=` removed.
pub open spec fn cleaned_topic(topic: Seq<char>) -> Seq<char> {
    without_specials(spaces_to_underscores(topic))
}

/// Makes a valid topic out of an arbitrary string: white space becomes `_`,
/// the forbidden sequences are dropped and a leading `/` is added.
pub fn as_valid_topic(topic: &str) -> (r: Result<String, TopicError>)
    ensures
        match r {
            Ok(t) => t@ == with_leading_slash(cleaned_topic(topic@)) && valid_topic(t@),
            Err(e) => e == TopicError::InvalidName && !valid_topic(with_leading_slash(cleaned_topic(topic@))),
        },
{
    proof {
        reveal_strlit("\\s");
        reveal_strlit("_");
        reveal_strlit("@|~|//|:=");
        reveal_strlit("");
        assert("\\s"@ =~= space_pattern());
        assert("_"@ =~= seq!['_']);
        assert("@|~|//|:="@ =~= specials_pattern());
    }
    let spaced = match replace_all("\\s", topic, "_") {
        Some(s) => s,
        None => return Err(TopicError::InvalidName),
    };
    let cleaned = match replace_all("@|~|//|:=", spaced.as_str(), "") {
        Some(s) => s,
        None => return Err(TopicError::InvalidName),
    };
    topic_from_cleaned(cleaned.as_str())
}
} // verus!
