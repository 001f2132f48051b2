//! String-level model of filesystem paths, and the two derived locations the
//! pipeline uses: the shared artifact cache and the per-invocation sandbox
//! directory.
//!
//! A path is a string; its `/`-separated segments are its components.  The
//! model keeps empty segments (they arise from doubled, leading or trailing
//! separators), and the join operation inserts a separator only where one is
//! missing, the way `PathBuf::push` writes a relative component.

use vstd::prelude::*;

verus! {

/// True of an absolute path: one that begins with a separator.
pub open spec fn spec_is_abs(p: Seq<char>) -> bool {
    p.len() > 0 && p[0] == '/'
}

/// `base` with `child` appended under it: a separator is inserted unless
/// `base` is empty or already ends in one.
pub open spec fn spec_join(base: Seq<char>, child: Seq<char>) -> Seq<char> {
    if base.len() == 0 {
        child
    } else if base.last() == '/' {
        base + child
    } else {
        base + seq!['/'] + child
    }
}

/// `base` with each segment of `segs` joined under it in turn.
pub open spec fn spec_join_all(base: Seq<char>, segs: Seq<Seq<char>>) -> Seq<char>
    decreases segs.len(),
{
    if segs.len() == 0 {
        base
    } else {
        spec_join_all(spec_join(base, segs.first()), segs.drop_first())
    }
}

/// The `/`-separated segments of a path, in order.  A path always has at
/// least one segment; the empty path has exactly one, itself empty.
pub open spec fn seg_split(p: Seq<char>) -> Seq<Seq<char>>
    decreases p.len(),
{
    if p.len() == 0 {
        seq![Seq::<char>::empty()]
    } else if p[0] == '/' {
        seq![Seq::<char>::empty()] + seg_split(p.drop_first())
    } else {
        let rest = seg_split(p.drop_first());
        seq![seq![p[0]] + rest.first()] + rest.drop_first()
    }
}

pub proof fn lemma_seg_split_nonempty(p: Seq<char>)
    ensures
        seg_split(p).len() >= 1,
    decreases p.len(),
{
    if p.len() != 0 {
        lemma_seg_split_nonempty(p.drop_first());
    }
}

/// Appending one character to a path either opens a fresh empty segment
/// (for a separator) or extends the final segment (for anything else).
pub proof fn lemma_seg_split_push(p: Seq<char>, c: char)
    ensures
        c == '/' ==> seg_split(p.push(c)) == seg_split(p).push(Seq::<char>::empty()),
        c != '/' ==> seg_split(p.push(c)) == seg_split(p).update(
            seg_split(p).len() - 1,
            seg_split(p).last().push(c),
        ),
    decreases p.len(),
{
    lemma_seg_split_nonempty(p);
    let q = p.push(c);
    if p.len() == 0 {
        reveal_with_fuel(seg_split, 3);
        assert(q.drop_first() =~= Seq::<char>::empty());
        if c == '/' {
            assert(seg_split(q) =~= seg_split(p).push(Seq::<char>::empty()));
        } else {
            assert(seq![q[0]] + seg_split(q.drop_first()).first() =~= Seq::<char>::empty().push(
                c,
            ));
            assert(seg_split(q) =~= seg_split(p).update(0, seg_split(p).last().push(c)));
        }
    } else {
        assert(q[0] == p[0]);
        assert(q.drop_first() =~= p.drop_first().push(c));
        lemma_seg_split_push(p.drop_first(), c);
        lemma_seg_split_nonempty(p.drop_first());
        let rest = seg_split(p.drop_first());
        if p[0] == '/' {
            if c == '/' {
                assert(seg_split(q) =~= seg_split(p).push(Seq::<char>::empty()));
            } else {
                assert(seg_split(q) =~= seg_split(p).update(
                    seg_split(p).len() - 1,
                    seg_split(p).last().push(c),
                ));
            }
        } else {
            if c == '/' {
                assert(rest.push(Seq::<char>::empty()).first() == rest.first());
                assert(rest.push(Seq::<char>::empty()).drop_first() =~= rest.drop_first().push(
                    Seq::<char>::empty(),
                ));
                assert(seg_split(q) =~= seg_split(p).push(Seq::<char>::empty()));
            } else {
                let updated = rest.update(rest.len() - 1, rest.last().push(c));
                if rest.len() == 1 {
                    assert(updated.first() == rest.last().push(c));
                    assert(updated.drop_first() =~= rest.drop_first());
                    assert(seq![q[0]] + updated.first() =~= (seq![p[0]] + rest.first()).push(c));
                    assert(seg_split(q) =~= seg_split(p).update(
                        seg_split(p).len() - 1,
                        seg_split(p).last().push(c),
                    ));
                } else {
                    assert(updated.first() == rest.first());
                    assert(updated.drop_first() =~= rest.drop_first().update(
                        rest.len() - 2,
                        rest.last().push(c),
                    ));
                    assert(seg_split(p).last() == rest.last());
                    assert(seg_split(q) =~= seg_split(p).update(
                        seg_split(p).len() - 1,
                        seg_split(p).last().push(c),
                    ));
                }
            }
        }
    }
}

/// The segments of a path, computed.  Every element of the result is a
/// borrowed slice of the input.
pub fn split_segments<'a>(s: &'a str) -> (r: Vec<&'a str>)
    ensures
        r@.len() == seg_split(s@).len(),
        forall|i: int| 0 <= i < r@.len() ==> r@[i]@ == seg_split(s@)[i],
{
    let n: usize = s.unicode_len();
    let mut r: Vec<&'a str> = Vec::new();
    let mut seg_start: usize = 0;
    let mut i: usize = 0;
    while i < n
        invariant
            i <= n,
            seg_start <= i,
            n == s@.len(),
            seg_split(s@.subrange(0, i as int)).len() == r@.len() + 1,
            forall|j: int|
                0 <= j < r@.len() ==> r@[j]@ == seg_split(s@.subrange(0, i as int))[j],
            seg_split(s@.subrange(0, i as int)).last() == s@.subrange(
                seg_start as int,
                i as int,
            ),
        decreases n - i,
    {
        let c: char = s.get_char(i);
        proof {
            assert(s@.subrange(0, i as int + 1) =~= s@.subrange(0, i as int).push(s@[i as int]));
            lemma_seg_split_push(s@.subrange(0, i as int), s@[i as int]);
            lemma_seg_split_nonempty(s@.subrange(0, i as int));
        }
        if c == '/' {
            let seg: &'a str = s.substring_char(seg_start, i);
            r.push(seg);
            seg_start = i + 1;
            proof {
                assert(s@.subrange(seg_start as int, i as int + 1) =~= Seq::<char>::empty());
            }
        } else {
            proof {
                assert(s@.subrange(seg_start as int, i as int + 1) =~= s@.subrange(
                    seg_start as int,
                    i as int,
                ).push(s@[i as int]));
            }
        }
        i = i + 1;
    }
    proof {
        assert(s@.subrange(0, n as int) =~= s@);
    }
    let last_seg: &'a str = s.substring_char(seg_start, n);
    r.push(last_seg);
    r
}

/// `base` with `child` appended under it, as `spec_join` describes.
pub fn join_path(base: &str, child: &str) -> (r: String)
    ensures
        r@ == spec_join(base@, child@),
{
    let n: usize = base.unicode_len();
    if n == 0 {
        String::from_str(child)
    } else {
        let last: char = base.get_char(n - 1);
        let mut s: String = String::from_str(base);
        if last == '/' {
            s.append(child);
            s
        } else {
            s.append("/");
            proof {
                reveal_strlit("/");
                assert(s@ =~= base@ + seq!['/']);
            }
            s.append(child);
            proof {
                assert(s@ =~= base@ + seq!['/'] + child@);
            }
            s
        }
    }
}

/// Whether `prefix` is a prefix of `s`, character for character.
pub fn starts_with_str(s: &str, prefix: &str) -> (r: bool)
    ensures
        r == prefix@.is_prefix_of(s@),
{
    let n: usize = s.unicode_len();
    let m: usize = prefix.unicode_len();
    if m > n {
        return false;
    }
    let mut i: usize = 0;
    while i < m
        invariant
            i <= m,
            m <= n,
            n == s@.len(),
            m == prefix@.len(),
            forall|j: int| 0 <= j < i ==> s@[j] == prefix@[j],
        decreases m - i,
    {
        if s.get_char(i) != prefix.get_char(i) {
            return false;
        }
        i = i + 1;
    }
    proof {
        assert(prefix@ =~= s@.subrange(0, m as int));
    }
    true
}

/// Whether the path consists only of separators (or is empty).
pub open spec fn all_slashes(p: Seq<char>) -> bool {
    forall|i: int| 0 <= i < p.len() ==> p[i] == '/'
}

/// Trailing separators of a path, removed.
pub open spec fn strip_trailing_slashes(p: Seq<char>) -> Seq<char>
    decreases p.len(),
{
    if p.len() > 0 && p.last() == '/' {
        strip_trailing_slashes(p.drop_last())
    } else {
        p
    }
}

/// The final segment of a path, removed: everything up to and including
/// the last separator, or the empty path when there is no separator.
pub open spec fn drop_last_segment(p: Seq<char>) -> Seq<char>
    decreases p.len(),
{
    if p.len() > 0 && p.last() != '/' {
        drop_last_segment(p.drop_last())
    } else {
        p
    }
}

/// The directory containing the object a path names, under this library's
/// rule: drop trailing separators, then the final segment; what remains,
/// without its own trailing separators, is the parent — `.` when nothing
/// remains, `/` when only separators do.
pub open spec fn spec_parent_dir(p: Seq<char>) -> Seq<char> {
    let q = strip_trailing_slashes(p);
    let head = drop_last_segment(q);
    if head.len() == 0 {
        seq!['.']
    } else if strip_trailing_slashes(head).len() == 0 {
        seq!['/']
    } else {
        strip_trailing_slashes(head)
    }
}

/// The length of `p`'s prefix of length `from` once its trailing
/// separators are dropped.
fn strip_trailing_from(p: &str, from: usize) -> (k: usize)
    requires
        from <= p@.len(),
    ensures
        k <= from,
        p@.subrange(0, k as int) == strip_trailing_slashes(p@.subrange(0, from as int)),
{
    let mut k: usize = from;
    while k > 0 && p.get_char(k - 1) == '/'
        invariant
            k <= from <= p@.len(),
            strip_trailing_slashes(p@.subrange(0, from as int)) == strip_trailing_slashes(
                p@.subrange(0, k as int),
            ),
        decreases k,
    {
        proof {
            assert(p@.subrange(0, k as int).drop_last() =~= p@.subrange(0, k as int - 1));
        }
        k = k - 1;
    }
    proof {
        assert(strip_trailing_slashes(p@.subrange(0, k as int)) == p@.subrange(0, k as int));
    }
    k
}

/// The length of `p`'s prefix of length `from` once its final segment is
/// dropped.
fn drop_segment_from(p: &str, from: usize) -> (j: usize)
    requires
        from <= p@.len(),
    ensures
        j <= from,
        p@.subrange(0, j as int) == drop_last_segment(p@.subrange(0, from as int)),
{
    let mut j: usize = from;
    while j > 0 && p.get_char(j - 1) != '/'
        invariant
            j <= from <= p@.len(),
            drop_last_segment(p@.subrange(0, from as int)) == drop_last_segment(
                p@.subrange(0, j as int),
            ),
        decreases j,
    {
        proof {
            assert(p@.subrange(0, j as int).drop_last() =~= p@.subrange(0, j as int - 1));
        }
        j = j - 1;
    }
    proof {
        assert(drop_last_segment(p@.subrange(0, j as int)) == p@.subrange(0, j as int));
    }
    j
}

/// The containing directory of the object `p` names, as `spec_parent_dir`
/// describes.  A path that is empty or all separators has no parent here.
pub fn parent_dir(p: &str) -> (r: String)
    requires
        p@.len() > 0,
        !all_slashes(p@),
    ensures
        r@ == spec_parent_dir(p@),
{
    let n: usize = p.unicode_len();
    proof {
        assert(p@.subrange(0, n as int) =~= p@);
    }
    let k: usize = strip_trailing_from(p, n);
    let j: usize = drop_segment_from(p, k);
    proof {
        assert(p@.subrange(0, j as int) == drop_last_segment(strip_trailing_slashes(p@)));
    }
    if j == 0 {
        proof {
            reveal_strlit(".");
            assert("."@ =~= seq!['.']);
        }
        return String::from_str(".");
    }
    let j2: usize = strip_trailing_from(p, j);
    if j2 == 0 {
        proof {
            reveal_strlit("/");
            assert("/"@ =~= seq!['/']);
        }
        return String::from_str("/");
    }
    let head: &str = p.substring_char(0, j2);
    String::from_str(head)
}

/// The character a decimal digit prints as.
pub open spec fn digit_char(d: nat) -> char {
    if d == 0 {
        '0'
    } else if d == 1 {
        '1'
    } else if d == 2 {
        '2'
    } else if d == 3 {
        '3'
    } else if d == 4 {
        '4'
    } else if d == 5 {
        '5'
    } else if d == 6 {
        '6'
    } else if d == 7 {
        '7'
    } else if d == 8 {
        '8'
    } else {
        '9'
    }
}

/// The decimal rendering of a natural number, most significant digit first,
/// without sign or leading zeroes.
pub open spec fn spec_decimal(n: nat) -> Seq<char>
    decreases n,
{
    if n < 10 {
        seq![digit_char(n)]
    } else {
        spec_decimal(n / 10).push(digit_char(n % 10))
    }
}

pub proof fn lemma_decimal_len(n: nat)
    ensures
        spec_decimal(n).len() >= 1,
        n >= 10 ==> spec_decimal(n).len() >= 2,
    decreases n,
{
    if n >= 10 {
        lemma_decimal_len(n / 10);
    }
}

/// Distinct numbers have distinct decimal renderings.
pub proof fn lemma_decimal_injective(a: nat, b: nat)
    requires
        spec_decimal(a) == spec_decimal(b),
    ensures
        a == b,
    decreases a,
{
    lemma_decimal_len(a);
    lemma_decimal_len(b);
    if a < 10 && b < 10 {
        assert(spec_decimal(a) == seq![digit_char(a)]);
        assert(spec_decimal(b) == seq![digit_char(b)]);
        assert(seq![digit_char(a)][0] == digit_char(a));
        assert(seq![digit_char(b)][0] == digit_char(b));
        assert(digit_char(a) == digit_char(b));
    } else if a < 10 {
        assert(false);
    } else if b < 10 {
        assert(false);
    } else {
        let sa = spec_decimal(a / 10);
        let sb = spec_decimal(b / 10);
        assert(sa =~= spec_decimal(a).drop_last());
        assert(sb =~= spec_decimal(b).drop_last());
        lemma_decimal_injective(a / 10, b / 10);
        assert(digit_char(a % 10) == spec_decimal(a).last());
        assert(digit_char(b % 10) == spec_decimal(b).last());
        assert(a % 10 == b % 10);
        assert(a == 10 * (a / 10) + a % 10);
        assert(b == 10 * (b / 10) + b % 10);
    }
}

/// Joining two children under one base gives equal paths only for equal
/// children.
pub proof fn lemma_join_same_base_injective(base: Seq<char>, c1: Seq<char>, c2: Seq<char>)
    requires
        spec_join(base, c1) == spec_join(base, c2),
    ensures
        c1 == c2,
{
    if base.len() == 0 {
    } else if base.last() == '/' {
        assert(c1 =~= (base + c1).subrange(base.len() as int, (base + c1).len() as int));
        assert(c2 =~= (base + c2).subrange(base.len() as int, (base + c2).len() as int));
    } else {
        let b = base + seq!['/'];
        assert(spec_join(base, c1) == b + c1);
        assert(spec_join(base, c2) == b + c2);
        assert(c1 =~= (b + c1).subrange(b.len() as int, (b + c1).len() as int));
        assert(c2 =~= (b + c2).subrange(b.len() as int, (b + c2).len() as int));
    }
}

/// Two invocations whose clocks read distinct seconds get distinct sandbox
/// directories under the same root.
pub proof fn lemma_sandbox_paths_distinct(root: Seq<char>, s1: u64, s2: u64)
    requires
        s1 != s2,
    ensures
        spec_join(root, spec_decimal(s1 as nat)) != spec_join(root, spec_decimal(s2 as nat)),
{
    if spec_join(root, spec_decimal(s1 as nat)) == spec_join(root, spec_decimal(s2 as nat)) {
        lemma_join_same_base_injective(root, spec_decimal(s1 as nat), spec_decimal(s2 as nat));
        lemma_decimal_injective(s1 as nat, s2 as nat);
    }
}

fn digit_str(d: u64) -> (r: &'static str)
    requires
        d < 10,
    ensures
        r@ == seq![digit_char(d as nat)],
{
    if d == 0 {
        proof {
            reveal_strlit("0");
            assert("0"@ =~= seq!['0']);
        }
        "0"
    } else if d == 1 {
        proof {
            reveal_strlit("1");
            assert("1"@ =~= seq!['1']);
        }
        "1"
    } else if d == 2 {
        proof {
            reveal_strlit("2");
            assert("2"@ =~= seq!['2']);
        }
        "2"
    } else if d == 3 {
        proof {
            reveal_strlit("3");
            assert("3"@ =~= seq!['3']);
        }
        "3"
    } else if d == 4 {
        proof {
            reveal_strlit("4");
            assert("4"@ =~= seq!['4']);
        }
        "4"
    } else if d == 5 {
        proof {
            reveal_strlit("5");
            assert("5"@ =~= seq!['5']);
        }
        "5"
    } else if d == 6 {
        proof {
            reveal_strlit("6");
            assert("6"@ =~= seq!['6']);
        }
        "6"
    } else if d == 7 {
        proof {
            reveal_strlit("7");
            assert("7"@ =~= seq!['7']);
        }
        "7"
    } else if d == 8 {
        proof {
            reveal_strlit("8");
            assert("8"@ =~= seq!['8']);
        }
        "8"
    } else {
        proof {
            reveal_strlit("9");
            assert("9"@ =~= seq!['9']);
        }
        "9"
    }
}

/// The decimal rendering of `n`, computed.
pub fn u64_to_decimal(n: u64) -> (r: String)
    ensures
        r@ == spec_decimal(n as nat),
    decreases n,
{
    if n < 10 {
        String::from_str(digit_str(n))
    } else {
        let mut s: String = u64_to_decimal(n / 10);
        s.append(digit_str(n % 10));
        proof {
            assert(s@ =~= spec_decimal((n as nat) / 10).push(digit_char((n as nat) % 10)));
        }
        s
    }
}

/// Relies on `std::time::SystemTime::now` and `duration_since(UNIX_EPOCH)`:
/// the whole seconds of wall-clock time since the Unix epoch, or 0 should
/// the clock read earlier than the epoch.  Nothing is promised of the value:
/// it depends on when the call runs.
#[verifier::external_body]
fn unix_time_seconds() -> u64 {
    match std::time::SystemTime::now().duration_since(std::time::UNIX_EPOCH) {
        Ok(d) => d.as_secs(),
        Err(_) => 0,
    }
}

/// The shared artifact cache: the literal subdirectory `artifact-cache`
/// under the cache root.
pub fn get_artifact_cache(cache_path: &str) -> (r: String)
    ensures
        r@ == spec_join(cache_path@, "artifact-cache"@),
{
    join_path(cache_path, "artifact-cache")
}

/// The sandbox directory an invocation at clock second `unix_seconds` uses:
/// the decimal seconds joined under the sandbox root.
pub fn sandbox_path_at(sandbox_path: &str, unix_seconds: u64) -> (r: String)
    ensures
        r@ == spec_join(sandbox_path@, spec_decimal(unix_seconds as nat)),
{
    let ts: String = u64_to_decimal(unix_seconds);
    join_path(sandbox_path, ts.as_str())
}

/// A fresh per-invocation sandbox directory: the current clock second,
/// rendered in decimal, joined under the sandbox root.
pub fn get_atomic_sandbox_path(sandbox_path: &str) -> (r: String)
    ensures
        exists|secs: u64| r@ == spec_join(sandbox_path@, spec_decimal(secs as nat)),
{
    let secs: u64 = unix_time_seconds();
    let r: String = sandbox_path_at(sandbox_path, secs);
    proof {
        assert(r@ == spec_join(sandbox_path@, spec_decimal(secs as nat)));
    }
    r
}

} // verus!
