//! Symmetry operations written in crystallographic shorthand, such as `"(x+1/2, -y)"`.
//!
//! Each coordinate of the result is an integer combination of the input coordinates plus
//! a rational offset, so the whole parse is exact: nothing here is rounded.
use vstd::prelude::*;

use crate::traits::FromSymmetry;
use vstd::string::StringSliceAdditionalSpecFns;

verus! {

/// The bytes that the scanner gives a meaning to.
pub const OPEN_PAREN: u8 = 40;
pub const CLOSE_PAREN: u8 = 41;
pub const STAR: u8 = 42;
pub const COMMA: u8 = 44;
pub const MINUS: u8 = 45;
pub const SLASH: u8 = 47;
pub const DIGIT_ZERO: u8 = 48;
pub const DIGIT_NINE: u8 = 57;
pub const AXIS_X: u8 = 120;
pub const AXIS_Y: u8 = 121;
pub const AXIS_Z: u8 = 122;

/// A rational offset: `num` divided in turn by each digit of `divisors`, which may be
/// empty. A zero divisor stands for what a floating-point division by zero gives (an
/// infinity, or not-a-number when `num` is zero too).
#[derive(Debug, Clone, PartialEq, Eq)]
pub struct Fraction {
    pub num: i64,
    pub divisors: Vec<u8>,
}

/// One output coordinate of a symmetry operation: `x * a + y * b + z * c + offset`.
#[derive(Debug, Clone, PartialEq, Eq)]
pub struct Term {
    pub x: i64,
    pub y: i64,
    pub z: i64,
    pub offset: Fraction,
}

/// Why a symmetry operation could not be read.
#[derive(Debug, Clone, Copy, PartialEq, Eq, Structural)]
pub enum SymmetryError {
    /// Fewer comma-separated expressions than the transform has dimensions.
    NotEnoughDimensions,
    /// More comma-separated expressions than the transform has dimensions.
    TooManyDimensions,
    /// A `z` in the operation of a two-dimensional transform.
    NoZDimension,
}

/// The state of the scanner while it reads one expression, byte by byte.
#[derive(Debug, Clone, Copy, PartialEq, Eq, Structural)]
pub struct ScanState {
    pub sign: i64,
    pub x: i64,
    pub y: i64,
    pub z: i64,
    pub num: i64,
    /// A `*` or `/` was read and waits for its digit.
    pub pending: bool,
}

pub open spec fn is_paren(c: u8) -> bool {
    c == OPEN_PAREN || c == CLOSE_PAREN
}

pub open spec fn is_digit(c: u8) -> bool {
    DIGIT_ZERO <= c && c <= DIGIT_NINE
}

pub open spec fn initial_scan() -> ScanState {
    ScanState { sign: 1, x: 0, y: 0, z: 0, num: 0, pending: false }
}

/// The effect of one byte of an expression on the scanner.
pub open spec fn scan_step(st: ScanState, c: u8) -> ScanState {
    if c == AXIS_X {
        ScanState { x: st.sign, sign: 1, ..st }
    } else if c == AXIS_Y {
        ScanState { y: st.sign, sign: 1, ..st }
    } else if c == AXIS_Z {
        ScanState { z: st.sign, sign: 1, ..st }
    } else if c == STAR || c == SLASH {
        ScanState { pending: true, ..st }
    } else if c == MINUS {
        ScanState { sign: -1i64, ..st }
    } else if is_digit(c) {
        let d = (c - DIGIT_ZERO) as int;
        if st.pending {
            ScanState { num: (st.sign * st.num) as i64, pending: false, sign: 1, ..st }
        } else {
            ScanState { num: (st.sign * d) as i64, pending: false, sign: 1, ..st }
        }
    } else {
        st
    }
}

/// The scanner after it has read all of `p`.
pub open spec fn scan(p: Seq<u8>) -> ScanState
    decreases p.len(),
{
    if p.len() == 0 {
        initial_scan()
    } else {
        scan_step(scan(p.drop_last()), p.last())
    }
}

pub open spec fn scan_wf(st: ScanState) -> bool {
    &&& st.sign == 1 || st.sign == -1
    &&& -9 <= st.num <= 9
    &&& -1 <= st.x <= 1
    &&& -1 <= st.y <= 1
    &&& -1 <= st.z <= 1
}

/// The divisors of the offset after the scanner has read all of `p`: a digit after `*` or
/// `/` adds one, a digit on its own starts a new offset without any.
pub open spec fn scan_divisors(p: Seq<u8>) -> Seq<u8>
    decreases p.len(),
{
    if p.len() == 0 {
        Seq::empty()
    } else {
        let before = scan_divisors(p.drop_last());
        let c = p.last();
        if is_digit(c) {
            if scan(p.drop_last()).pending {
                before.push((c - DIGIT_ZERO) as u8)
            } else {
                Seq::empty()
            }
        } else {
            before
        }
    }
}

/// Whether `t` is the term that the expression `p` describes.
pub open spec fn term_of(t: Term, p: Seq<u8>) -> bool {
    let st = scan(p);
    &&& t.x == st.x
    &&& t.y == st.y
    &&& t.z == st.z
    &&& t.offset.num == st.num
    &&& t.offset.divisors@ == scan_divisors(p)
}

/// Whether `rows` holds, in order, the terms that the expressions `ps` describe.
pub open spec fn terms_of(rows: Seq<Term>, ps: Seq<Seq<u8>>) -> bool {
    &&& rows.len() == ps.len()
    &&& forall|k: int| 0 <= k < ps.len() ==> term_of(#[trigger] rows[k], ps[k])
}

/// The index of the first byte at or after `i` that is not a parenthesis.
pub open spec fn trim_start_from(s: Seq<u8>, i: int) -> int
    decreases s.len() - i,
{
    if 0 <= i < s.len() && is_paren(s[i]) {
        trim_start_from(s, i + 1)
    } else {
        i
    }
}

/// The end of `s[lo..j]` once the parentheses at its end are dropped.
pub open spec fn trim_end_to(s: Seq<u8>, lo: int, j: int) -> int
    decreases j - lo,
{
    if lo < j <= s.len() && is_paren(s[j - 1]) {
        trim_end_to(s, lo, j - 1)
    } else {
        j
    }
}

/// `s` without the parentheses at its start and at its end.
pub open spec fn trimmed(s: Seq<u8>) -> Seq<u8> {
    let lo = trim_start_from(s, 0);
    s.subrange(lo, trim_end_to(s, lo, s.len() as int))
}

/// The pieces of `s` between commas that are complete, and the piece still open.
pub open spec fn split_parts(s: Seq<u8>) -> (Seq<Seq<u8>>, Seq<u8>)
    decreases s.len(),
{
    if s.len() == 0 {
        (Seq::empty(), Seq::empty())
    } else {
        let (done, cur) = split_parts(s.drop_last());
        if s.last() == COMMA {
            (done.push(cur), Seq::empty())
        } else {
            (done, cur.push(s.last()))
        }
    }
}

/// `s` split at each comma, where an empty last piece is not counted.
pub open spec fn pieces(s: Seq<u8>) -> Seq<Seq<u8>> {
    let (done, cur) = split_parts(s);
    if cur.len() > 0 {
        done.push(cur)
    } else {
        done
    }
}

pub open spec fn mentions_z(ps: Seq<Seq<u8>>) -> bool {
    exists|k: int, i: int| 0 <= k < ps.len() && 0 <= i < ps[k].len() && ps[k][i] == AXIS_Z
}

/// What reading the operation `s` in `dim` dimensions gives: one expression per dimension,
/// each of which describes a term (see `terms_of`).
pub open spec fn parse_spec(s: Seq<u8>, dim: nat) -> Result<Seq<Seq<u8>>, SymmetryError> {
    let ps = pieces(trimmed(s));
    if ps.len() < dim {
        Err(SymmetryError::NotEnoughDimensions)
    } else if ps.len() > dim {
        Err(SymmetryError::TooManyDimensions)
    } else if dim < 3 && mentions_z(ps) {
        Err(SymmetryError::NoZDimension)
    } else {
        Ok(ps)
    }
}

fn scan_byte(st: ScanState, c: u8) -> (r: ScanState)
    requires
        scan_wf(st),
    ensures
        r == scan_step(st, c),
        scan_wf(r),
{
    if c == AXIS_X {
        ScanState { x: st.sign, sign: 1, ..st }
    } else if c == AXIS_Y {
        ScanState { y: st.sign, sign: 1, ..st }
    } else if c == AXIS_Z {
        ScanState { z: st.sign, sign: 1, ..st }
    } else if c == STAR || c == SLASH {
        ScanState { pending: true, ..st }
    } else if c == MINUS {
        ScanState { sign: -1i64, ..st }
    } else if DIGIT_ZERO <= c && c <= DIGIT_NINE {
        let d: u64 = (c - DIGIT_ZERO) as u64;
        let signed_num: i64 = if st.sign < 0 { -st.num } else { st.num };
        if st.pending {
            proof {
                assert(st.sign * st.num == signed_num) by (nonlinear_arith)
                    requires
                        st.sign == 1 || st.sign == -1,
                        st.sign < 0 ==> signed_num == -st.num,
                        st.sign >= 0 ==> signed_num == st.num,
                ;
            }
            ScanState { num: signed_num, pending: false, sign: 1, ..st }
        } else {
            let n: i64 = if st.sign < 0 { -(d as i64) } else { d as i64 };
            proof {
                assert(st.sign * (d as int) == n) by (nonlinear_arith)
                    requires
                        st.sign == 1 || st.sign == -1,
                        st.sign < 0 ==> n == -(d as int),
                        st.sign >= 0 ==> n == d as int,
                ;
            }
            ScanState { num: n, pending: false, sign: 1, ..st }
        }
    } else {
        st
    }
}

/// Reads one expression and gives the term that it describes.
fn scan_expression(p: &Vec<u8>) -> (r: Term)
    ensures
        term_of(r, p@),
{
    let mut st = ScanState { sign: 1, x: 0, y: 0, z: 0, num: 0, pending: false };
    let mut divisors: Vec<u8> = Vec::new();
    let mut i: usize = 0;
    while i < p.len()
        invariant
            i <= p@.len(),
            st == scan(p@.subrange(0, i as int)),
            divisors@ == scan_divisors(p@.subrange(0, i as int)),
            scan_wf(st),
        decreases p@.len() - i,
    {
        proof {
            assert(p@.subrange(0, i as int + 1).drop_last() =~= p@.subrange(0, i as int));
        }
        let c = p[i];
        if DIGIT_ZERO <= c && c <= DIGIT_NINE {
            if st.pending {
                divisors.push(c - DIGIT_ZERO);
            } else {
                divisors = Vec::new();
            }
        }
        st = scan_byte(st, c);
        i = i + 1;
    }
    proof {
        assert(p@.subrange(0, p@.len() as int) =~= p@);
    }
    Term { x: st.x, y: st.y, z: st.z, offset: Fraction { num: st.num, divisors } }
}

/// Whether any of the expressions mentions the axis `z`.
fn mentions_axis_z(ps: &Vec<Vec<u8>>, Ghost(spec_ps): Ghost<Seq<Seq<u8>>>) -> (r: bool)
    requires
        ps@.len() == spec_ps.len(),
        forall|k: int| 0 <= k < ps@.len() ==> (#[trigger] ps@[k])@ == spec_ps[k],
    ensures
        r == mentions_z(spec_ps),
{
    let mut k: usize = 0;
    while k < ps.len()
        invariant
            k <= ps@.len(),
            ps@.len() == spec_ps.len(),
            forall|j: int| 0 <= j < ps@.len() ==> (#[trigger] ps@[j])@ == spec_ps[j],
            forall|j: int, i: int|
                0 <= j < k && 0 <= i < spec_ps[j].len() ==> spec_ps[j][i] != AXIS_Z,
        decreases ps@.len() - k,
    {
        let p = &ps[k];
        let mut i: usize = 0;
        while i < p.len()
            invariant
                k < ps@.len(),
                ps@.len() == spec_ps.len(),
                forall|j: int, i: int|
                    0 <= j < k && 0 <= i < spec_ps[j].len() ==> spec_ps[j][i] != AXIS_Z,
                p@ == spec_ps[k as int],
                i <= p@.len(),
                forall|j: int| 0 <= j < i ==> spec_ps[k as int][j] != AXIS_Z,
            decreases p@.len() - i,
        {
            if p[i] == AXIS_Z {
                assert(spec_ps[k as int][i as int] == AXIS_Z);
                return true;
            }
            i = i + 1;
        }
        k = k + 1;
    }
    false
}

/// Reads a symmetry operation in `dim` dimensions, one term per dimension.
pub fn parse_operations(ops: &str, dim: usize) -> (r: Result<Vec<Term>, SymmetryError>)
    requires
        2 <= dim <= 3,
    ensures
        match parse_spec(ops.spec_bytes(), dim as nat) {
            Ok(ps) => r.is_ok() && terms_of(r.unwrap()@, ps),
            Err(e) => r.is_err() && r.get_Err_0() == e,
        },
{
    let b = ops.as_bytes();
    let ghost s = b@;
    let n = b.len();
    let mut lo: usize = 0;
    while lo < n && (b[lo] == OPEN_PAREN || b[lo] == CLOSE_PAREN)
        invariant
            n == s.len(),
            b@ == s,
            s == ops.spec_bytes(),
            lo <= n,
            trim_start_from(s, lo as int) == trim_start_from(s, 0),
        decreases n - lo,
    {
        lo = lo + 1;
    }
    let mut hi: usize = n;
    while hi > lo && (b[hi - 1] == OPEN_PAREN || b[hi - 1] == CLOSE_PAREN)
        invariant
            n == s.len(),
            b@ == s,
            lo <= hi <= n,
            trim_start_from(s, 0) == lo,
            trim_end_to(s, lo as int, hi as int) == trim_end_to(s, lo as int, n as int),
        decreases hi - lo,
    {
        hi = hi - 1;
    }
    let ghost t = s.subrange(lo as int, hi as int);
    assert(t == trimmed(s));

    let mut done: Vec<Vec<u8>> = Vec::new();
    let mut cur: Vec<u8> = Vec::new();
    let mut i: usize = lo;
    while i < hi
        invariant
            lo <= i <= hi <= n,
            n == s.len(),
            b@ == s,
            t == s.subrange(lo as int, hi as int),
            done@.len() == split_parts(s.subrange(lo as int, i as int)).0.len(),
            forall|k: int|
                0 <= k < done@.len() ==> (#[trigger] done@[k])@ == split_parts(
                    s.subrange(lo as int, i as int),
                ).0[k],
            cur@ == split_parts(s.subrange(lo as int, i as int)).1,
        decreases hi - i,
    {
        proof {
            assert(s.subrange(lo as int, i + 1).drop_last() =~= s.subrange(lo as int, i as int));
        }
        let c = b[i];
        if c == COMMA {
            done.push(cur);
            cur = Vec::new();
        } else {
            cur.push(c);
        }
        i = i + 1;
    }
    assert(s.subrange(lo as int, hi as int) == t);
    if cur.len() > 0 {
        done.push(cur);
    }
    let ghost ps = pieces(t);
    assert(done@.len() == ps.len());
    assert(forall|k: int| 0 <= k < done@.len() ==> (#[trigger] done@[k])@ == ps[k]);

    if done.len() < dim {
        return Err(SymmetryError::NotEnoughDimensions);
    }
    if done.len() > dim {
        return Err(SymmetryError::TooManyDimensions);
    }
    if dim < 3 && mentions_axis_z(&done, Ghost(ps)) {
        return Err(SymmetryError::NoZDimension);
    }
    let mut terms: Vec<Term> = Vec::new();
    let mut k: usize = 0;
    while k < done.len()
        invariant
            k <= done@.len(),
            done@.len() == ps.len(),
            ps == pieces(trimmed(ops.spec_bytes())),
            ps.len() == dim,
            dim < 3 ==> !mentions_z(ps),
            forall|j: int| 0 <= j < done@.len() ==> (#[trigger] done@[j])@ == ps[j],
            terms@.len() == k,
            forall|j: int| 0 <= j < k ==> term_of(#[trigger] terms@[j], ps[j]),
        decreases done@.len() - k,
    {
        let t = scan_expression(&done[k]);
        terms.push(t);
        k = k + 1;
    }
    Ok(terms)
}

/// Whether `t` keeps the coordinate `axis` (0 for x, 1 for y, 2 for z) as it is.
pub open spec fn is_axis_term(t: Term, axis: int) -> bool {
    &&& t.x == (if axis == 0 { 1i64 } else { 0i64 })
    &&& t.y == (if axis == 1 { 1i64 } else { 0i64 })
    &&& t.z == (if axis == 2 { 1i64 } else { 0i64 })
    &&& t.offset.num == 0
    &&& t.offset.divisors@.len() == 0
}

fn make_axis_term(axis: usize) -> (r: Term)
    requires
        axis < 3,
    ensures
        is_axis_term(r, axis as int),
{
    Term {
        x: if axis == 0 { 1 } else { 0 },
        y: if axis == 1 { 1 } else { 0 },
        z: if axis == 2 { 1 } else { 0 },
        offset: Fraction { num: 0, divisors: Vec::new() },
    }
}

/// A symmetry operation of the plane: one term for each of x and y.
#[derive(Debug, Clone)]
pub struct Transform2 {
    pub rows: Vec<Term>,
}

/// A symmetry operation of space: one term for each of x, y and z.
#[derive(Debug, Clone)]
pub struct Transform3 {
    pub rows: Vec<Term>,
}

impl Transform2 {
    pub open spec fn wf(&self) -> bool {
        &&& self.rows@.len() == 2
        &&& forall|i: int| 0 <= i < 2 ==> (#[trigger] self.rows@[i]).z == 0
    }

    /// The operation that leaves every point where it is.
    pub fn identity() -> (r: Self)
        ensures
            r.rows@.len() == 2,
            forall|i: int| 0 <= i < 2 ==> is_axis_term(#[trigger] r.rows@[i], i),
            r.wf(),
    {
        Transform2 { rows: vec![make_axis_term(0), make_axis_term(1)] }
    }
}

impl Transform3 {
    pub open spec fn wf(&self) -> bool {
        self.rows@.len() == 3
    }

    /// The operation that leaves every point where it is.
    pub fn identity() -> (r: Self)
        ensures
            r.rows@.len() == 3,
            forall|i: int| 0 <= i < 3 ==> is_axis_term(#[trigger] r.rows@[i], i),
            r.wf(),
    {
        Transform3 { rows: vec![make_axis_term(0), make_axis_term(1), make_axis_term(2)] }
    }
}

impl FromSymmetry for Transform2 {
    open spec fn parses_to(ops: Seq<u8>, r: Result<Self, SymmetryError>) -> bool {
        match parse_spec(ops, 2) {
            Ok(ps) => r.is_ok() && terms_of(r.unwrap().rows@, ps),
            Err(e) => r.is_err() && r.get_Err_0() == e,
        }
    }

    fn from_operations(ops: &str) -> (r: Result<Self, SymmetryError>) {
        match parse_operations(ops, 2) {
            Ok(rows) => Ok(Transform2 { rows }),
            Err(e) => Err(e),
        }
    }
}

impl FromSymmetry for Transform3 {
    open spec fn parses_to(ops: Seq<u8>, r: Result<Self, SymmetryError>) -> bool {
        match parse_spec(ops, 3) {
            Ok(ps) => r.is_ok() && terms_of(r.unwrap().rows@, ps),
            Err(e) => r.is_err() && r.get_Err_0() == e,
        }
    }

    fn from_operations(ops: &str) -> (r: Result<Self, SymmetryError>) {
        match parse_operations(ops, 3) {
            Ok(rows) => Ok(Transform3 { rows }),
            Err(e) => Err(e),
        }
    }
}

/// A two-dimensional operation that parses never reads `z`.
pub proof fn lemma_parsed_plane_operation_is_wf(ops: Seq<u8>, t: Transform2)
    requires
        Transform2::parses_to(ops, Ok(t)),
    ensures
        t.wf(),
{
    let ps = pieces(trimmed(ops));
    assert forall|i: int| 0 <= i < 2 implies (#[trigger] t.rows@[i]).z == 0 by {
        lemma_scan_without_z_keeps_z(ps[i]);
    }
}

proof fn lemma_scan_without_z_keeps_z(p: Seq<u8>)
    requires
        forall|i: int| 0 <= i < p.len() ==> p[i] != AXIS_Z,
    ensures
        scan(p).z == 0,
    decreases p.len(),
{
    if p.len() > 0 {
        lemma_scan_without_z_keeps_z(p.drop_last());
    }
}

} // verus!
