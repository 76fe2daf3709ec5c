//! Closures: capture, closures as arguments and results, and currying.
use vstd::prelude::*;
use vstd::string::StringExecFns;

verus! {

/// Calls `closure` on `1` and hands back what it returned.
pub fn receives_closure<F>(closure: F) -> (r: i32)
    where
        F: Fn(i32) -> i32,
    requires
        closure.requires((1i32,)),
    ensures
        closure.ensures((1i32,), r),
{
    closure(1)
}

/// The closure `|x| x + y`, with `y` captured by value.
pub fn adder(y: i32) -> (f: impl Fn(i32) -> i32)
    ensures
        forall|x: i32| i32::MIN <= x + y <= i32::MAX ==> #[trigger] f.requires((x,)),
        forall|x: i32, r: i32| #[trigger] f.ensures((x,), r) ==> r == x + y,
{
    move |x: i32| -> (r: i32)
        requires
            i32::MIN <= x + y <= i32::MAX,
        ensures
            r == x + y,
        { x + y }
}

/// A closure that adds `4` to its argument.
pub fn returns_clousure() -> (f: impl Fn(i32) -> i32)
    ensures
        forall|x: i32| x + 4 <= i32::MAX ==> #[trigger] f.requires((x,)),
        forall|x: i32, r: i32| #[trigger] f.ensures((x,), r) ==> r == x + 4,
{
    |x: i32| -> (r: i32)
        requires
            x + 4 <= i32::MAX,
        ensures
            r == x + 4,
        { x + 4 }
}

/// Fixes the first operand of `f` to `x`: the result maps `y` to `f(x, y)`.
/// Both `f` and `x` are moved into the result, which outlives this call.
pub fn currry<F>(f: F, x: i32) -> (g: impl Fn(i32) -> i32)
    where
        F: Fn(i32, i32) -> i32,
    ensures
        forall|y: i32| f.requires((x, y)) ==> #[trigger] g.requires((y,)),
        forall|y: i32, r: i32| #[trigger] g.ensures((y,), r) ==> f.ensures((x, y), r),
{
    move |y: i32| -> (r: i32)
        requires
            f.requires((x, y)),
        ensures
            f.ensures((x, y), r),
        { f(x, y) }
}

/// `currry` over any operand and result types: the result maps `y` to `f(x, y)`.
pub fn generic_curry<F, X, Y, Z>(f: F, x: X) -> (g: impl Fn(Y) -> Z)
    where
        F: Fn(X, Y) -> Z,
        X: Copy,
    ensures
        forall|y: Y| f.requires((x, y)) ==> #[trigger] g.requires((y,)),
        forall|y: Y, r: Z| #[trigger] g.ensures((y,), r) ==> f.ensures((x, y), r),
{
    move |y: Y| -> (r: Z)
        requires
            f.requires((x, y)),
        ensures
            f.ensures((x, y), r),
        { f(x, y) }
}

/// The two-operand closure `|a, b| a + b + extra`.
pub fn sum_plus(extra: i32) -> (f: impl Fn(i32, i32) -> i32)
    ensures
        forall|a: i32, b: i32|
            i32::MIN <= a + b + extra <= i32::MAX && i32::MIN <= a + b <= i32::MAX
                ==> #[trigger] f.requires((a, b)),
        forall|a: i32, b: i32, r: i32| #[trigger] f.ensures((a, b), r) ==> r == a + b + extra,
{
    move |a: i32, b: i32| -> (r: i32)
        requires
            i32::MIN <= a + b <= i32::MAX,
            i32::MIN <= a + b + extra <= i32::MAX,
        ensures
            r == a + b + extra,
        { a + b + extra }
}

/// The text of `s` followed by the text of `t`.
pub fn concatenate(s: &str, t: &str) -> (r: String)
    ensures
        r@ == s@ + t@,
{
    s.to_owned().concat(t)
}

/// `generic_curry` on `sum_plus(extra)` with first operand `x`: maps `y` to `x + y + extra`.
pub fn curry_sum_plus(extra: i32, x: i32) -> (g: impl Fn(i32) -> i32)
    ensures
        forall|y: i32|
            i32::MIN <= x + y + extra <= i32::MAX && i32::MIN <= x + y <= i32::MAX
                ==> #[trigger] g.requires((y,)),
        forall|y: i32, r: i32| #[trigger] g.ensures((y,), r) ==> r == x + y + extra,
{
    generic_curry(sum_plus(extra), x)
}

/// `generic_curry` on `concatenate` with first operand `prefix`: maps `t` to `prefix` followed by `t`.
pub fn curry_concat<'a>(prefix: &'a str) -> (g: impl Fn(&'a str) -> String + 'a)
    ensures
        forall|t: &'a str| #[trigger] g.requires((t,)),
        forall|t: &'a str, r: String| #[trigger] g.ensures((t,), r) ==> r@ == prefix@ + t@,
{
    generic_curry(|s: &'a str, t: &'a str| -> (r: String) ensures r@ == s@ + t@ { concatenate(s, t) }, prefix)
}

/// What the closure tour computes, in the order it is shown.
pub struct ClosureReport {
    /// `|x| x + y` with `y = 2`, called on `1`.
    pub added: i32,
    /// The same closure handed to `receives_closure`.
    pub received: i32,
    /// `returns_clousure()` called on `1`.
    pub offset: i32,
    /// `currry` of addition with `5`, called on `1`.
    pub curried: i32,
    /// `generic_curry` of `|a, b| a + b + 2` with `4`, handed to `receives_closure`.
    pub generic_received: i32,
    /// `generic_curry` of `concatenate` with `"Hello, "`, called on `"world!"`.
    pub greeting: String,
}

/// Runs the closure tour and returns its results.
pub fn run() -> (r: ClosureReport)
    ensures
        r.added == 3,
        r.received == 3,
        r.offset == 5,
        r.curried == 6,
        r.generic_received == 7,
        r.greeting@ == "Hello, world!"@,
{
    let y: i32 = 2;
    let add_y = adder(y);
    let added = add_y(1);
    let received = receives_closure(add_y);

    let closure = returns_clousure();
    let offset = closure(1);

    let plus = |a: i32, b: i32| -> (r: i32)
        requires
            i32::MIN <= a + b <= i32::MAX,
        ensures
            r == a + b,
        { a + b };
    let closure = currry(plus, 5);
    let curried = closure(1);

    let two: i32 = 2;
    let closure = curry_sum_plus(two, 4);
    let generic_received = receives_closure(closure);

    let closure = curry_concat("Hello, ");
    let greeting = closure("world!");
    proof {
        reveal_strlit("Hello, ");
        reveal_strlit("world!");
        reveal_strlit("Hello, world!");
        assert(greeting@ =~= "Hello, world!"@);
    }
    ClosureReport { added, received, offset, curried, generic_received, greeting }
}

} // verus!
