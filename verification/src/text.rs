//! Small verified string utilities: slice comparison, joining lines with
//! newlines, and rendering a number in decimal.  These are the only places
//! the library builds or compares text.

use vstd::prelude::*;
use vstd::string::StringExecFns;

verus! {

/// Compare two string slices by their character sequences.
pub fn str_eq(a: &str, b: &str) -> (r: bool)
    ensures
        r == (a@ == b@),
{
    let sa: String = a.to_owned();
    let sb: String = b.to_owned();
    sa == sb
}

/// The character sequences of a sequence of strings.
pub open spec fn str_views(ss: Seq<String>) -> Seq<Seq<char>> {
    ss.map_values(|s: String| s@)
}

/// The given lines joined by a single newline, with no trailing newline.
pub open spec fn join_lines(lines: Seq<Seq<char>>) -> Seq<char>
    decreases lines.len(),
{
    if lines.len() == 0 {
        Seq::empty()
    } else if lines.len() == 1 {
        lines[0]
    } else {
        join_lines(lines.drop_last()) + seq!['\n'] + lines.last()
    }
}

pub fn join_with_newlines(lines: &Vec<String>) -> (r: String)
    ensures
        r@ == join_lines(str_views(lines@)),
{
    let ghost mapped = str_views(lines@);
    let mut r = String::new();
    let mut i: usize = 0;
    while i < lines.len()
        invariant
            i <= lines@.len(),
            mapped == str_views(lines@),
            r@ == join_lines(mapped.take(i as int)),
        decreases lines@.len() - i,
    {
        if i > 0 {
            r.append("\n");
        }
        r.append(lines[i].as_str());
        proof {
            assert(mapped.take(i + 1).drop_last() =~= mapped.take(i as int));
            assert(mapped.take(i + 1).last() == mapped[i as int]);
            reveal_strlit("\n");
            if i == 0 {
                assert(r@ =~= join_lines(mapped.take(i + 1)));
            } else {
                assert(r@ =~= join_lines(mapped.take(i as int)) + seq!['\n'] + mapped[i as int]);
            }
        }
        i = i + 1;
    }
    proof {
        assert(mapped.take(lines@.len() as int) =~= mapped);
    }
    r
}

/// Join consecutive chunks of `count` lines each into one block per chunk:
/// the text of chunk `c` is lines `c*count .. min((c+1)*count, len)` joined
/// by newlines.  The last chunk may be shorter; the order is preserved.
pub fn chunk_join(lines: &Vec<String>, count: usize) -> (r: Vec<String>)
    requires
        count >= 1,
    ensures
        r@.len() == crate::layout::ceil_div(lines@.len() as int, count as int),
        forall|c: int|
            0 <= c < r@.len() ==> (#[trigger] r@[c])@ == join_lines(
                str_views(lines@).subrange(
                    c * (count as int),
                    vstd::math::min((c + 1) * (count as int), lines@.len() as int),
                ),
            ),
{
    let n = lines.len();
    let ghost icount = count as int;
    let mut r: Vec<String> = Vec::new();
    let mut start: usize = 0;
    proof {
        assert(r@.len() * icount == 0) by (nonlinear_arith)
            requires
                r@.len() == 0,
        ;
    }
    while start < n
        invariant
            count >= 1,
            icount == count as int,
            n == lines@.len(),
            start as int == vstd::math::min(r@.len() * icount, n as int),
            r@.len() == 0 || (r@.len() - 1) * icount < n as int,
            forall|c: int|
                0 <= c < r@.len() ==> (#[trigger] r@[c])@ == join_lines(
                    str_views(lines@).subrange(
                        c * icount,
                        vstd::math::min((c + 1) * icount, n as int),
                    ),
                ),
        decreases n - start,
    {
        let ghost c = r@.len() as int;
        proof {
            assert(start as int == c * icount);
        }
        let end: usize = if n - start > count {
            start + count
        } else {
            n
        };
        let mut chunk: Vec<String> = Vec::new();
        let mut j: usize = start;
        while j < end
            invariant
                start <= j <= end <= n,
                n == lines@.len(),
                chunk@ == lines@.subrange(start as int, j as int),
            decreases end - j,
        {
            chunk.push(lines[j].clone());
            proof {
                assert(chunk@ =~= lines@.subrange(start as int, j + 1));
            }
            j = j + 1;
        }
        let joined = join_with_newlines(&chunk);
        proof {
            assert(str_views(chunk@) =~= str_views(lines@).subrange(start as int, end as int));
            assert((c + 1) * icount == c * icount + icount) by (nonlinear_arith);
        }
        r.push(joined);
        proof {
            assert(end as int == vstd::math::min(r@.len() * icount, n as int));
        }
        start = end;
    }
    proof {
        let c = r@.len() as int;
        assert(start == n);
        if n == 0 {
            vstd::arithmetic::div_mod::lemma_fundamental_div_mod_converse(
                icount - 1,
                icount,
                0,
                icount - 1,
            );
        } else {
            assert(c >= 1);
            assert((c - 1) * icount < n as int);
            assert(c * icount >= n as int);
            let rem = n as int + icount - 1 - c * icount;
            assert(0 <= rem < icount) by (nonlinear_arith)
                requires
                    rem == n as int + icount - 1 - c * icount,
                    (c - 1) * icount < n as int,
                    c * icount >= n as int,
                    icount >= 1,
            ;
            vstd::arithmetic::div_mod::lemma_fundamental_div_mod_converse(
                n as int + icount - 1,
                icount,
                c,
                rem,
            );
        }
    }
    r
}

/// The decimal digit character for a value below ten.
pub open spec fn spec_digit(d: int) -> char {
    if d == 0 {
        '0'
    } else if d == 1 {
        '1'
    } else if d == 2 {
        '2'
    } else if d == 3 {
        '3'
    } else if d == 4 {
        '4'
    } else if d == 5 {
        '5'
    } else if d == 6 {
        '6'
    } else if d == 7 {
        '7'
    } else if d == 8 {
        '8'
    } else {
        '9'
    }
}

/// The decimal representation of a number, most significant digit first.
pub open spec fn spec_decimal(n: nat) -> Seq<char>
    decreases n,
{
    if n < 10 {
        seq![spec_digit(n as int)]
    } else {
        spec_decimal(n / 10).push(spec_digit((n % 10) as int))
    }
}

fn digit_str(d: usize) -> (r: &'static str)
    requires
        d < 10,
    ensures
        r@ =~= seq![spec_digit(d as int)],
{
    proof {
        reveal_strlit("0");
        reveal_strlit("1");
        reveal_strlit("2");
        reveal_strlit("3");
        reveal_strlit("4");
        reveal_strlit("5");
        reveal_strlit("6");
        reveal_strlit("7");
        reveal_strlit("8");
        reveal_strlit("9");
    }
    match d {
        0 => "0",
        1 => "1",
        2 => "2",
        3 => "3",
        4 => "4",
        5 => "5",
        6 => "6",
        7 => "7",
        8 => "8",
        _ => "9",
    }
}

/// Render a number in decimal.
pub fn usize_to_string(n: usize) -> (r: String)
    ensures
        r@ == spec_decimal(n as nat),
    decreases n,
{
    if n < 10 {
        let r = digit_str(n).to_owned();
        proof {
            assert(r@ =~= spec_decimal(n as nat));
        }
        r
    } else {
        let mut r = usize_to_string(n / 10);
        r.append(digit_str(n % 10));
        proof {
            assert(r@ =~= spec_decimal(n as nat));
        }
        r
    }
}

} // verus!
