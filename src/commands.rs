use vstd::prelude::*;

verus! {

/// Whether `d` is a non-empty run of decimal digits.
pub open spec fn all_digits(d: Seq<char>) -> bool {
    d.len() > 0 && forall|i: int| 0 <= i < d.len() ==> '0' <= #[trigger] d[i] <= '9'
}

/// The number that a run of decimal digits spells.
pub open spec fn digits_value(d: Seq<char>) -> int
    decreases d.len(),
{
    if d.len() == 0 {
        0
    } else {
        digits_value(d.drop_last()) * 10 + (d.last() as int - '0' as int)
    }
}

/// A decimal `i32`: an optional `+` or `-`, then one or more digits, with
/// the value in range; `None` for any other text.
pub open spec fn parsed_i32_of(s: Seq<char>) -> Option<i32> {
    let neg = s.len() > 0 && s[0] == '-';
    let signed = s.len() > 0 && (s[0] == '-' || s[0] == '+');
    let d = if signed {
        s.skip(1)
    } else {
        s
    };
    let v = if neg {
        -digits_value(d)
    } else {
        digits_value(d)
    };
    if all_digits(d) && i32::MIN <= v <= i32::MAX {
        Some(v as i32)
    } else {
        None
    }
}

/// Relies on `str::parse::<i32>` (`i32::from_str`): an optional sign, then
/// decimal digits, with the value in range; any other text fails.
#[verifier::external_body]
fn parse_i32(s: &Vec<char>) -> (r: Option<i32>)
    ensures
        r == parsed_i32_of(s@),
{
    let text: String = s.iter().collect();
    text.parse::<i32>().ok()
}

/// The value an argument stands for: its number, or 0 if it is none.
pub open spec fn arg_value(s: Seq<char>) -> int {
    match parsed_i32_of(s) {
        Some(v) => v as int,
        None => 0,
    }
}

/// The sum of the values of the first `k` arguments.
pub open spec fn sum_upto(args: Seq<Seq<char>>, k: int) -> int
    decreases k,
{
    if k <= 0 {
        0
    } else {
        sum_upto(args, k - 1) + arg_value(args[k - 1])
    }
}

/// The product of the values of the first `k` arguments.
pub open spec fn product_upto(args: Seq<Seq<char>>, k: int) -> int
    decreases k,
{
    if k <= 0 {
        1
    } else {
        product_upto(args, k - 1) * arg_value(args[k - 1])
    }
}

pub open spec fn fits_i32(v: int) -> bool {
    i32::MIN <= v <= i32::MAX
}

/// The value of one argument.
pub fn arg_to_int(s: &Vec<char>) -> (r: i32)
    ensures
        r as int == arg_value(s@),
{
    match parse_i32(s) {
        Some(v) => v,
        None => 0,
    }
}

/// Sums the values of the arguments, or gives `None` where a running sum
/// leaves the `i32` range.
pub fn sum_args(args: &Vec<Vec<char>>) -> (r: Option<i32>)
    ensures
        r.is_some() <==> forall|k: int| 0 <= k <= args.len() ==> fits_i32(
            #[trigger] sum_upto(crate::text::views(args@), k),
        ),
        r.is_some() ==> r->0 as int == sum_upto(crate::text::views(args@), args.len() as int),
{
    let ghost a = crate::text::views(args@);
    let mut acc: i32 = 0;
    let mut i: usize = 0;
    while i < args.len()
        invariant
            i <= args.len(),
            a == crate::text::views(args@),
            acc as int == sum_upto(a, i as int),
            forall|k: int| 0 <= k <= i ==> fits_i32(#[trigger] sum_upto(a, k)),
        decreases args.len() - i,
    {
        let v = arg_to_int(&args[i]);
        assert(a[i as int] == args@[i as int]@);
        let t: i64 = acc as i64 + v as i64;
        if t < i32::MIN as i64 || t > i32::MAX as i64 {
            assert(!fits_i32(sum_upto(a, i + 1)));
            return None;
        }
        acc = t as i32;
        i = i + 1;
    }
    Some(acc)
}

/// Multiplies the values of the arguments, or gives `None` where a running
/// product leaves the `i32` range.
pub fn product_args(args: &Vec<Vec<char>>) -> (r: Option<i32>)
    ensures
        r.is_some() <==> forall|k: int| 0 <= k <= args.len() ==> fits_i32(
            #[trigger] product_upto(crate::text::views(args@), k),
        ),
        r.is_some() ==> r->0 as int == product_upto(crate::text::views(args@), args.len() as int),
{
    let ghost a = crate::text::views(args@);
    let mut acc: i32 = 1;
    let mut i: usize = 0;
    while i < args.len()
        invariant
            i <= args.len(),
            a == crate::text::views(args@),
            acc as int == product_upto(a, i as int),
            forall|k: int| 0 <= k <= i ==> fits_i32(#[trigger] product_upto(a, k)),
        decreases args.len() - i,
    {
        let v = arg_to_int(&args[i]);
        assert(a[i as int] == args@[i as int]@);
        proof {
            let x = acc as int;
            let y = v as int;
            assert(-2147483648 <= x <= 2147483647);
            assert(-2147483648 <= y <= 2147483647);
            assert(-4611686018427387904 <= x * y <= 4611686018427387904) by (nonlinear_arith)
                requires
                    -2147483648 <= x <= 2147483647,
                    -2147483648 <= y <= 2147483647,
            ;
        }
        let t: i64 = acc as i64 * v as i64;
        if t < i32::MIN as i64 || t > i32::MAX as i64 {
            assert(!fits_i32(product_upto(a, i + 1)));
            return None;
        }
        acc = t as i32;
        i = i + 1;
    }
    Some(acc)
}

} // verus!
