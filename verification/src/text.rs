//! Decimal numbers in text, and the names of frame files.

use vstd::prelude::*;
use vstd::string::*;

verus! {

/// The character that stands for one decimal digit.
pub open spec fn digit_char(d: nat) -> char {
    if d == 0 {
        '0'
    } else if d == 1 {
        '1'
    } else if d == 2 {
        '2'
    } else if d == 3 {
        '3'
    } else if d == 4 {
        '4'
    } else if d == 5 {
        '5'
    } else if d == 6 {
        '6'
    } else if d == 7 {
        '7'
    } else if d == 8 {
        '8'
    } else {
        '9'
    }
}

/// A number in decimal, most significant digit first, without leading zeros.
pub open spec fn decimal(n: nat) -> Seq<char>
    decreases n,
{
    if n < 10 {
        seq![digit_char(n)]
    } else {
        decimal(n / 10).push(digit_char(n % 10))
    }
}

/// A run of `count` zeros.
pub open spec fn zeros(count: nat) -> Seq<char> {
    Seq::new(count, |i: int| '0')
}

/// A number in decimal, filled with zeros on the left up to `width`
/// characters. A number with more digits than that keeps them all.
pub open spec fn zero_padded(n: nat, width: nat) -> Seq<char> {
    let digits = decimal(n);
    if digits.len() >= width {
        digits
    } else {
        zeros((width - digits.len()) as nat) + digits
    }
}

/// The width to which a frame's index is filled in its file name.
pub const FRAME_INDEX_WIDTH: usize = 5;

/// The name of the file that holds the frame with the given index.
pub open spec fn frame_file_name(index: nat) -> Seq<char> {
    "frame_"@ + zero_padded(index, FRAME_INDEX_WIDTH as nat) + ".png"@
}

/// The path of a file inside a directory: the directory, a slash, the name.
pub open spec fn path_in(dir: Seq<char>, name: Seq<char>) -> Seq<char> {
    dir + "/"@ + name
}

/// The path of the frame with the given index inside a directory.
pub open spec fn frame_path(dir: Seq<char>, index: nat) -> Seq<char> {
    path_in(dir, frame_file_name(index))
}

/// Every decimal number has at least one digit.
pub proof fn lemma_decimal_len_positive(n: nat)
    ensures
        decimal(n).len() >= 1,
    decreases n,
{
    if n >= 10 {
        lemma_decimal_len_positive(n / 10);
    }
}

/// A number filled with zeros has exactly `width` characters, unless it has
/// more digits than that, which it keeps.
pub proof fn lemma_zero_padded_len(n: nat, width: nat)
    ensures
        zero_padded(n, width).len() == if decimal(n).len() >= width {
            decimal(n).len()
        } else {
            width
        },
{
}

/// The last digit of a decimal number is that of its remainder by ten.
pub proof fn lemma_decimal_last(n: nat)
    ensures
        decimal(n).len() >= 1,
        decimal(n).last() == digit_char(n % 10),
        n >= 10 ==> decimal(n).drop_last() == decimal(n / 10),
        n < 10 ==> decimal(n).len() == 1,
{
    lemma_decimal_len_positive(n);
    if n >= 10 {
        assert(decimal(n) == decimal(n / 10).push(digit_char(n % 10)));
        assert(decimal(n / 10).push(digit_char(n % 10)).drop_last() == decimal(n / 10));
    }
}

/// Two different digits have different characters.
pub proof fn lemma_digit_char_injective(a: nat, b: nat)
    requires
        a < 10,
        b < 10,
        digit_char(a) == digit_char(b),
    ensures
        a == b,
{
}

/// Different numbers are written differently.
pub proof fn lemma_decimal_injective(a: nat, b: nat)
    requires
        decimal(a) == decimal(b),
    ensures
        a == b,
    decreases a,
{
    lemma_decimal_last(a);
    lemma_decimal_last(b);
    lemma_digit_char_injective(a % 10, b % 10);
    if a >= 10 {
        if b >= 10 {
            lemma_decimal_injective(a / 10, b / 10);
        } else {
            lemma_decimal_len_positive(a / 10);
            assert(decimal(a).len() == decimal(a / 10).len() + 1);
        }
    } else {
        if b >= 10 {
            lemma_decimal_len_positive(b / 10);
            assert(decimal(b).len() == decimal(b / 10).len() + 1);
        }
    }
}

/// The one-character text of a decimal digit.
fn digit_str(d: u8) -> (s: &'static str)
    requires
        d < 10,
    ensures
        s@ == seq![digit_char(d as nat)],
{
    proof {
        reveal_strlit("0");
        reveal_strlit("1");
        reveal_strlit("2");
        reveal_strlit("3");
        reveal_strlit("4");
        reveal_strlit("5");
        reveal_strlit("6");
        reveal_strlit("7");
        reveal_strlit("8");
        reveal_strlit("9");
    }
    let s: &'static str = if d == 0 {
        "0"
    } else if d == 1 {
        "1"
    } else if d == 2 {
        "2"
    } else if d == 3 {
        "3"
    } else if d == 4 {
        "4"
    } else if d == 5 {
        "5"
    } else if d == 6 {
        "6"
    } else if d == 7 {
        "7"
    } else if d == 8 {
        "8"
    } else {
        "9"
    };
    assert(s@ =~= seq![digit_char(d as nat)]);
    s
}

/// Appends a number in decimal to a text.
pub fn push_decimal(s: &mut String, n: u64)
    ensures
        final(s)@ == old(s)@ + decimal(n as nat),
    decreases n,
{
    if n >= 10 {
        push_decimal(s, n / 10);
    }
    let d: u8 = (n % 10) as u8;
    s.append(digit_str(d));
    proof {
        if n >= 10 {
            assert(old(s)@ + decimal((n / 10) as nat) + seq![digit_char(d as nat)] =~= old(s)@
                + decimal((n / 10) as nat).push(digit_char(d as nat)));
        }
    }
}

/// A number in decimal.
pub fn decimal_string(n: u64) -> (s: String)
    ensures
        s@ == decimal(n as nat),
{
    let mut s = String::new();
    push_decimal(&mut s, n);
    assert(Seq::<char>::empty() + decimal(n as nat) =~= decimal(n as nat));
    s
}

/// How many digits a number has in decimal.
pub fn decimal_len(n: u64) -> (len: usize)
    ensures
        len == decimal(n as nat).len(),
        1 <= len <= 20,
{
    let mut len: usize = 1;
    let mut rest: u64 = n;
    assert(rest as nat * pow10(0) == rest) by (nonlinear_arith)
        requires
            pow10(0) == 1,
    ;
    while rest >= 10
        invariant
            1 <= len <= 20,
            len + decimal(rest as nat).len() == decimal(n as nat).len() + 1,
            rest as nat * pow10((len - 1) as nat) <= n,
        decreases rest,
    {
        proof {
            lemma_decimal_len_positive((rest / 10) as nat);
            assert(decimal(rest as nat).len() == decimal((rest / 10) as nat).len() + 1);
            lemma_pow10_step(rest as nat, (len - 1) as nat);
            if len == 20 {
                lemma_pow10_20_exceeds();
                assert(pow10(20) == 10 * pow10(19));
                assert(rest as nat * pow10(19) >= 10 * pow10(19)) by (nonlinear_arith)
                    requires
                        rest >= 10,
                ;
            }
        }
        rest = rest / 10;
        len = len + 1;
    }
    assert(decimal(rest as nat).len() == 1);
    len
}

/// Ten to the power of `e`.
pub open spec fn pow10(e: nat) -> nat
    decreases e,
{
    if e == 0 {
        1
    } else {
        10 * pow10((e - 1) as nat)
    }
}

proof fn lemma_pow10_step(rest: nat, e: nat)
    requires
        rest >= 10,
    ensures
        (rest / 10) * pow10(e + 1) <= rest * pow10(e),
{
    assert(pow10(e + 1) == 10 * pow10(e));
    assert((rest / 10) * (10 * pow10(e)) <= rest * pow10(e)) by (nonlinear_arith)
        requires
            rest >= 10,
    ;
}

proof fn lemma_pow10_20_exceeds()
    ensures
        pow10(20) > u64::MAX,
{
    reveal_with_fuel(pow10, 21);
}

/// A number in decimal, filled with zeros on the left up to `width` characters.
pub fn zero_padded_string(n: u64, width: usize) -> (s: String)
    ensures
        s@ == zero_padded(n as nat, width as nat),
{
    let len: usize = decimal_len(n);
    let mut s = String::new();
    if len < width {
        let fill: usize = width - len;
        let mut i: usize = 0;
        proof {
            reveal_strlit("0");
        }
        while i < fill
            invariant
                i <= fill,
                s@ == zeros(i as nat),
                "0"@ == seq!['0'],
            decreases fill - i,
        {
            s.append("0");
            i = i + 1;
            assert(s@ =~= zeros(i as nat));
        }
        assert(s@ =~= zeros(fill as nat));
    }
    assert(s@ =~= if len < width { zeros((width - len) as nat) } else { Seq::<char>::empty() });
    push_decimal(&mut s, n);
    assert(s@ =~= zero_padded(n as nat, width as nat));
    s
}

/// The name of the file that holds the frame with the given index:
/// `frame_`, the index filled with zeros to five digits, `.png`.
pub fn frame_file_name_string(index: usize) -> (s: String)
    ensures
        s@ == frame_file_name(index as nat),
{
    let mut s = String::from_str("frame_");
    let digits = zero_padded_string(index as u64, FRAME_INDEX_WIDTH);
    s.append(digits.as_str());
    s.append(".png");
    s
}

/// The path of a file inside a directory.
pub fn path_in_string(dir: &str, name: &str) -> (s: String)
    ensures
        s@ == path_in(dir@, name@),
{
    let mut s = String::from_str(dir);
    s.append("/");
    s.append(name);
    s
}

/// The path of the frame with the given index inside a directory.
pub fn frame_path_string(dir: &str, index: usize) -> (s: String)
    ensures
        s@ == frame_path(dir@, index as nat),
{
    let name = frame_file_name_string(index);
    path_in_string(dir, name.as_str())
}

/// The views of a list of texts.
pub open spec fn views(v: Seq<String>) -> Seq<Seq<char>> {
    Seq::new(v.len(), |i: int| v[i]@)
}

/// The paths of the first `count` frames of a directory, in index order.
pub open spec fn frame_path_list(dir: Seq<char>, count: nat) -> Seq<Seq<char>> {
    Seq::new(count, |i: int| frame_path(dir, i as nat))
}

/// The paths of the first `count` frames of a directory, in index order:
/// as many as asked for, the path at place `i` that of frame `i`. The result
/// depends on the directory and the count alone.
pub fn frame_paths(dir: &str, count: usize) -> (paths: Vec<String>)
    ensures
        views(paths@) == frame_path_list(dir@, count as nat),
        paths.len() == count,
        forall|i: int|
            0 <= i < paths.len() ==> (#[trigger] paths[i])@ == frame_path(dir@, i as nat),
{
    let mut paths: Vec<String> = Vec::new();
    let mut i: usize = 0;
    while i < count
        invariant
            i <= count,
            paths.len() == i,
            forall|k: int| 0 <= k < i ==> (#[trigger] paths[k])@ == frame_path(dir@, k as nat),
        decreases count - i,
    {
        let path = frame_path_string(dir, i);
        paths.push(path);
        i = i + 1;
    }
    assert(views(paths@) =~= frame_path_list(dir@, count as nat));
    paths
}

/// The list of the first frames grows at its end only: the paths of fewer
/// frames are the first of the paths of more.
pub proof fn lemma_frame_path_list_prefix(dir: Seq<char>, fewer: nat, more: nat)
    requires
        fewer <= more,
    ensures
        frame_path_list(dir, more).subrange(0, fewer as int) =~= frame_path_list(dir, fewer),
{
}

/// Frames with different indices have different paths in one directory.
pub proof fn lemma_frame_paths_distinct(dir: Seq<char>, i: nat, j: nat)
    requires
        frame_path(dir, i) == frame_path(dir, j),
    ensures
        i == j,
{
    let prefix = dir + "/"@ + "frame_"@;
    let pi = zero_padded(i, FRAME_INDEX_WIDTH as nat);
    let pj = zero_padded(j, FRAME_INDEX_WIDTH as nat);
    let tail = ".png"@;
    assert(frame_path(dir, i) =~= prefix + pi + tail);
    assert(frame_path(dir, j) =~= prefix + pj + tail);
    assert((prefix + pi + tail).len() == (prefix + pj + tail).len());
    assert(pi.len() == pj.len());
    assert(pi =~= pj) by {
        assert forall|k: int| 0 <= k < pi.len() implies pi[k] == pj[k] by {
            assert((prefix + pi + tail)[prefix.len() + k] == pi[k]);
            assert((prefix + pj + tail)[prefix.len() + k] == pj[k]);
        }
    }
    lemma_zero_padded_injective(i, j, FRAME_INDEX_WIDTH as nat);
}

/// The first character of a decimal number is a zero only for zero itself.
pub proof fn lemma_decimal_leading(n: nat)
    ensures
        decimal(n).len() >= 1,
        decimal(n)[0] == '0' ==> n == 0,
    decreases n,
{
    lemma_decimal_len_positive(n);
    if n >= 10 {
        lemma_decimal_leading(n / 10);
        assert(decimal(n)[0] == decimal(n / 10)[0]);
    }
}

/// Filling with zeros keeps different numbers apart.
pub proof fn lemma_zero_padded_injective(a: nat, b: nat, width: nat)
    requires
        zero_padded(a, width) == zero_padded(b, width),
    ensures
        a == b,
{
    let da = decimal(a);
    let db = decimal(b);
    lemma_decimal_leading(a);
    lemma_decimal_leading(b);
    let pa = zero_padded(a, width);
    let pb = zero_padded(b, width);
    if da.len() == db.len() {
        assert(da =~= db) by {
            assert forall|k: int| 0 <= k < da.len() implies da[k] == db[k] by {
                assert(pa[pa.len() - da.len() + k] == da[k]);
                assert(pb[pb.len() - db.len() + k] == db[k]);
            }
        }
        lemma_decimal_injective(a, b);
    } else if da.len() < db.len() {
        // b's first digit would stand where a has fill or a digit further on.
        assert(da.len() < width);
        assert(pa.len() == width);
        assert(pb.len() == width);
        assert(db.len() <= width);
        let at = width - db.len();
        assert(pa[at] == '0');
        assert(pb[at] == db[0]);
        assert(b == 0);
        assert(db.len() == 1);
    } else {
        assert(db.len() < width);
        assert(pa.len() == width);
        assert(pb.len() == width);
        let at = width - da.len();
        assert(pb[at] == '0');
        assert(pa[at] == da[0]);
        assert(a == 0);
        assert(da.len() == 1);
    }
}

} // verus!
