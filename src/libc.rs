//! The C string and formatting routines that the freestanding engine links against, on byte slices.
use vstd::prelude::*;

verus! {

/// Byte `i` of a C string held in `s`: the bytes past the end of `s` read as the
/// terminating NUL.
pub open spec fn c_byte(s: Seq<u8>, i: int) -> u8 {
    if 0 <= i < s.len() {
        s[i]
    } else {
        0
    }
}

/// How two C strings compare over at most `n` bytes from byte `i` on: the difference of
/// the first bytes that differ, or 0 when the strings end, or the limit comes, first.
pub open spec fn c_compare(s1: Seq<u8>, s2: Seq<u8>, i: int, n: int) -> int
    decreases n - i,
{
    if i >= n {
        0
    } else if c_byte(s1, i) != c_byte(s2, i) {
        c_byte(s1, i) as int - c_byte(s2, i) as int
    } else if c_byte(s1, i) == 0 {
        0
    } else {
        c_compare(s1, s2, i + 1, n)
    }
}

/// The length of a C string, counted up to `max_len` at most.
pub open spec fn is_c_length(s: Seq<u8>, max_len: int, r: int) -> bool {
    &&& 0 <= r <= max_len
    &&& forall|j: int| 0 <= j < r ==> c_byte(s, j) != 0
    &&& r < max_len ==> c_byte(s, r) == 0
}

/// Compares two C strings over at most `n` bytes.
pub fn strncmp(s1: &[u8], s2: &[u8], n: usize) -> (r: i32)
    ensures
        r == c_compare(s1@, s2@, 0, n as int),
{
    let mut i: usize = 0;
    while i < n
        invariant
            i <= n,
            c_compare(s1@, s2@, 0, n as int) == c_compare(s1@, s2@, i as int, n as int),
        decreases n - i,
    {
        let a: u8 = if i < s1.len() {
            s1[i]
        } else {
            0
        };
        let b: u8 = if i < s2.len() {
            s2[i]
        } else {
            0
        };
        if a != b {
            return a as i32 - b as i32;
        }
        if a == 0 {
            return 0;
        }
        i = i + 1;
    }
    0
}

proof fn lemma_compare_past_ends(s1: Seq<u8>, s2: Seq<u8>, i: int, n: int, m: int)
    requires
        i >= s1.len(),
        i >= s2.len(),
        i <= n,
        i <= m,
    ensures
        c_compare(s1, s2, i, n) == c_compare(s1, s2, i, m),
{
    if i < n && i < m {
        assert(c_byte(s1, i) == 0 && c_byte(s2, i) == 0);
    }
}

/// The longer of two lengths.
pub open spec fn longer(a: int, b: int) -> int {
    if a >= b {
        a
    } else {
        b
    }
}

/// How two C strings compare: they are compared up to the end of the longer one, where both
/// read as NUL.
pub open spec fn c_strcmp(s1: Seq<u8>, s2: Seq<u8>) -> int {
    c_compare(s1, s2, 0, longer(s1.len() as int, s2.len() as int) + 1)
}

/// Compares two C strings: the difference of the first bytes that differ, or 0 when they
/// are equal up to their end.
pub fn strcmp(s1: &[u8], s2: &[u8]) -> (r: i32)
    ensures
        r == c_strcmp(s1@, s2@),
{
    let n: usize = if s1.len() >= s2.len() {
        s1.len()
    } else {
        s2.len()
    };
    let r = strncmp(s1, s2, n);
    proof {
        let end = longer(s1@.len() as int, s2@.len() as int);
        assert forall|i: int| 0 <= i <= end implies c_compare(s1@, s2@, i, end) == c_compare(
            s1@,
            s2@,
            i,
            end + 1,
        ) by {
            lemma_compare_steps(s1@, s2@, i, end);
        }
    }
    r
}

proof fn lemma_compare_steps(s1: Seq<u8>, s2: Seq<u8>, i: int, end: int)
    requires
        0 <= i <= end,
        end == longer(s1.len() as int, s2.len() as int),
    ensures
        c_compare(s1, s2, i, end) == c_compare(s1, s2, i, end + 1),
    decreases end - i,
{
    if i == end {
        lemma_compare_past_ends(s1, s2, i, end, end + 1);
    } else {
        if c_byte(s1, i) == c_byte(s2, i) && c_byte(s1, i) != 0 {
            lemma_compare_steps(s1, s2, i + 1, end);
        }
    }
}

/// The length of the C string in `s`, counted up to `max_len` at most.
pub fn strnlen(s: &[u8], max_len: usize) -> (r: usize)
    ensures
        is_c_length(s@, max_len as int, r as int),
{
    let mut i: usize = 0;
    while i < max_len && i < s.len() && s[i] != 0
        invariant
            i <= max_len,
            forall|j: int| 0 <= j < i ==> c_byte(s@, j) != 0,
        decreases max_len - i,
    {
        i = i + 1;
    }
    i
}

/// What `snprintf` leaves in a buffer of `n` bytes for the text `rendered`: as much of the
/// text as fits before a terminating NUL, or nothing at all in a buffer of no bytes.
pub open spec fn snprintf_fill(rendered: Seq<u8>, n: int) -> Seq<u8> {
    if n <= 0 {
        Seq::empty()
    } else if rendered.len() < n {
        rendered.push(0)
    } else {
        rendered.subrange(0, n - 1).push(0)
    }
}

/// The bytes to write to a buffer of `n` bytes for the formatted text `rendered`.
pub fn snprintf_output(rendered: &[u8], n: usize) -> (r: Vec<u8>)
    ensures
        r@ == snprintf_fill(rendered@, n as int),
{
    let mut out: Vec<u8> = Vec::new();
    if n == 0 {
        return out;
    }
    let keep: usize = if rendered.len() < n {
        rendered.len()
    } else {
        n - 1
    };
    let mut i: usize = 0;
    while i < keep
        invariant
            i <= keep,
            keep <= rendered@.len(),
            out@ == rendered@.subrange(0, i as int),
        decreases keep - i,
    {
        out.push(rendered[i]);
        i = i + 1;
    }
    out.push(0);
    proof {
        if rendered@.len() < n {
            assert(rendered@.subrange(0, keep as int) == rendered@);
        }
    }
    out
}

/// What `snprintf` returns for formatted text of `len` bytes: that length, or -1 where
/// it does not fit the return type.
pub fn snprintf_result(len: usize) -> (r: i32)
    ensures
        len <= i32::MAX ==> r == len,
        len > i32::MAX ==> r == -1,
{
    if len <= i32::MAX as usize {
        len as i32
    } else {
        -1
    }
}

/// Whether a checked copy of `len` bytes fits an object of `object_size` bytes; a copy
/// that does not fit is an overflow that must stop the program.
pub fn copy_fits(len: usize, object_size: usize) -> (r: bool)
    ensures
        r == (len <= object_size),
{
    len <= object_size
}

} // verus!
