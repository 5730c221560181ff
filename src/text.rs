//! Comparisons of texts, character by character.

use vstd::prelude::*;
use vstd::string::StrSliceExecFns;

verus! {

/// Whether `t` holds `l` at position `i`.
pub open spec fn occurs_at(t: Seq<char>, l: Seq<char>, i: int) -> bool {
    0 <= i && i + l.len() <= t.len() && t.subrange(i, i + l.len()) == l
}

/// Whether `l` is one of the lines of `t`, the lines being what lies between
/// the line feeds of `t` (a line feed at the end leaves an empty last line).
pub open spec fn has_line(t: Seq<char>, l: Seq<char>) -> bool {
    &&& !l.contains('\n')
    &&& exists|i: int|
        #![trigger occurs_at(t, l, i)]
        occurs_at(t, l, i) && (i == 0 || t[i - 1] == '\n') && (i + l.len() == t.len() || t[i
            + l.len()] == '\n')
}

/// The characters of `s`.
pub fn chars_of(s: &str) -> (r: Vec<char>)
    ensures
        r@ == s@,
{
    let n = s.unicode_len();
    let mut r: Vec<char> = Vec::new();
    let mut i: usize = 0;
    while i < n
        invariant
            i <= n,
            n == s@.len(),
            r@ == s@.take(i as int),
        decreases n - i,
    {
        r.push(s.get_char(i));
        i = i + 1;
        assert(r@ =~= s@.take(i as int));
    }
    assert(s@.take(n as int) =~= s@);
    r
}

/// Whether `a` and `b` are the same text.
pub fn same_text(a: &str, b: &str) -> (r: bool)
    ensures
        r == (a@ == b@),
{
    let x = chars_of(a);
    let y = chars_of(b);
    if x.len() != y.len() {
        return false;
    }
    let mut i: usize = 0;
    while i < x.len()
        invariant
            x@.len() == y@.len(),
            x@ == a@,
            y@ == b@,
            i <= x@.len(),
            forall|j: int| 0 <= j < i ==> x@[j] == y@[j],
        decreases x@.len() - i,
    {
        if x[i] != y[i] {
            assert(a@[i as int] != b@[i as int]);
            return false;
        }
        i = i + 1;
    }
    assert(x@ =~= y@);
    true
}

/// Whether `y` is one of the lines of `x` at position `i`.
fn line_at(x: &Vec<char>, y: &Vec<char>, i: usize) -> (r: bool)
    requires
        i + y@.len() <= x@.len(),
    ensures
        r == (occurs_at(x@, y@, i as int) && (i == 0 || x@[i - 1] == '\n') && (i + y@.len()
            == x@.len() || x@[i + y@.len()] == '\n')),
{
    let n = x.len();
    if i > 0 && x[i - 1] != '\n' {
        return false;
    }
    if i + y.len() < n && x[i + y.len()] != '\n' {
        return false;
    }
    let mut j: usize = 0;
    while j < y.len()
        invariant
            i + y@.len() <= x@.len(),
            n == x@.len(),
            j <= y@.len(),
            forall|k: int| 0 <= k < j ==> x@[i + k] == y@[k],
        decreases y@.len() - j,
    {
        if x[i + j] != y[j] {
            assert(x@.subrange(i as int, i + y@.len())[j as int] != y@[j as int]);
            return false;
        }
        j = j + 1;
    }
    assert(x@.subrange(i as int, i + y@.len()) =~= y@);
    true
}

/// Whether `line` is one of the lines of `text`.
pub fn lists_line(text: &str, line: &str) -> (r: bool)
    ensures
        r == has_line(text@, line@),
{
    let x = chars_of(text);
    let y = chars_of(line);
    let mut k: usize = 0;
    while k < y.len()
        invariant
            k <= y@.len(),
            y@ == line@,
            forall|j: int| 0 <= j < k ==> y@[j] != '\n',
        decreases y@.len() - k,
    {
        if y[k] == '\n' {
            assert(y@[k as int] == '\n');
            assert(y@.contains('\n'));
            return false;
        }
        k = k + 1;
    }
    assert(!y@.contains('\n'));
    if y.len() > x.len() {
        assert forall|i: int| !occurs_at(x@, y@, i) by {}
        return false;
    }
    let last = x.len() - y.len();
    let mut i: usize = 0;
    while i < last
        invariant
            i <= last,
            x@ == text@,
            y@ == line@,
            last == x@.len() - y@.len(),
            !y@.contains('\n'),
            forall|p: int|
                #![trigger occurs_at(x@, y@, p)]
                0 <= p < i ==> !(occurs_at(x@, y@, p) && (p == 0 || x@[p - 1] == '\n') && (p
                    + y@.len() == x@.len() || x@[p + y@.len()] == '\n')),
        decreases last - i,
    {
        if line_at(&x, &y, i) {
            assert(occurs_at(x@, y@, i as int));
            return true;
        }
        i = i + 1;
    }
    let found = line_at(&x, &y, last);
    if found {
        assert(occurs_at(x@, y@, last as int));
    } else {
        assert forall|p: int|
            #![trigger occurs_at(x@, y@, p)]
            occurs_at(x@, y@, p) implies !((p == 0 || x@[p - 1] == '\n') && (p + y@.len()
                == x@.len() || x@[p + y@.len()] == '\n')) by {}
    }
    found
}

} // verus!
