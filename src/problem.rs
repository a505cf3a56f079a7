use vstd::prelude::*;

verus! {

/// One quiz item: a page of code, whether it is right as written, and a
/// grade tag that names its category.
#[derive(Clone, Copy, Debug)]
pub struct Problem {
    pub code: &'static str,
    pub is_correct: bool,
    pub grade: &'static str,
}

/// The grade of the problem whose text hides itself a while after it shows.
pub const AUTO_HIDE_GRADE: &'static str = "2-1";

/// Number of problems in the pool.
pub const POOL_LEN: usize = 8;

/// The reference page: every rule well formed.
pub const PAGE: &'static str = r#"<!DOCTYPE html>
<html lang="en">
<head>
    <meta charset="UTF-8">
    <title>1% Better</title>
    <style>
        body {
            background-color: #111;
            color: #0f0;
            font-family: 'Courier New', monospace;
            display: flex;
            justify-content: center;
            align-items: center;
            height: 100vh;
            font-size: 2rem;
        }
    </style>
</head>
<body>
    1% better every day
</body>
</html>"#;

/// The page with an unknown `display` value.
pub const PAGE_BAD_DISPLAY: &'static str = r#"<!DOCTYPE html>
<html lang="en">
<head>
    <meta charset="UTF-8">
    <title>1% Better</title>
    <style>
        body {
            background-color: #111;
            color: #0f0;
            font-family: 'Courier New', monospace;
            display: yolo;
            justify-content: center;
            align-items: center;
            height: 100vh;
            font-size: 2rem;
        }
    </style>
</head>
<body>
    1% better every day
</body>
</html>"#;

/// The page with its motto changed.
pub const PAGE_WRONG_MOTTO: &'static str = r#"<!DOCTYPE html>
<html lang="en">
<head>
    <meta charset="UTF-8">
    <title>1% Better</title>
    <style>
        body {
            background-color: #111;
            color: #0f0;
            font-family: 'Courier New', monospace;
            display: flex;
            justify-content: center;
            align-items: center;
            height: 100vh;
            font-size: 2rem;
        }
    </style>
</head>
<body>
    100% better every day
</body>
</html>"#;

/// The page with a colour that is no hex code.
pub const PAGE_BAD_COLOR: &'static str = r#"<!DOCTYPE html>
<html lang="en">
<head>
    <meta charset="UTF-8">
    <title>1% Better</title>
    <style>
        body {
            background-color: #111;
            color: #o_o;
            font-family: 'Courier New', monospace;
            display: flex;
            justify-content: center;
            align-items: center;
            height: 100vh;
            font-size: 2rem;
        }
    </style>
</head>
<body>
    1% better every day
</body>
</html>"#;

/// The page with the body rule left unclosed.
pub const PAGE_UNCLOSED_RULE: &'static str = r#"<!DOCTYPE html>
<html lang="en">
<head>
    <meta charset="UTF-8">
    <title>1% Better</title>
    <style>
        body {
            background-color: #111;
            color: #0f0;
            font-family: 'Courier New', monospace;
            display: flex;
            justify-content: center;
            align-items: center;
            height: 100vh;
            font-size: 2rem;
        
    </style>
</head>
<body>
    1% better every day
</body>
</html>"#;

/// The problem pool, in order. Slot 0 is the tutorial problem.
pub open spec fn problem_pool() -> Seq<Problem> {
    seq![
        Problem { code: PAGE, is_correct: true, grade: "0" },
        Problem { code: PAGE, is_correct: true, grade: "0-1" },
        Problem { code: PAGE, is_correct: true, grade: "0-2" },
        Problem { code: PAGE_BAD_DISPLAY, is_correct: false, grade: "1-1" },
        Problem { code: PAGE_WRONG_MOTTO, is_correct: false, grade: "1-2" },
        Problem { code: PAGE_BAD_COLOR, is_correct: false, grade: "1-3" },
        Problem { code: PAGE_UNCLOSED_RULE, is_correct: false, grade: "1-4" },
        Problem { code: PAGE, is_correct: false, grade: AUTO_HIDE_GRADE },
    ]
}

/// Builds the fixed problem pool.
pub fn generate_problem_pool() -> (r: Vec<Problem>)
    ensures
        r@ == problem_pool(),
        r@.len() == POOL_LEN,
{
    let mut v: Vec<Problem> = Vec::new();
    v.push(Problem { code: PAGE, is_correct: true, grade: "0" });
    v.push(Problem { code: PAGE, is_correct: true, grade: "0-1" });
    v.push(Problem { code: PAGE, is_correct: true, grade: "0-2" });
    v.push(Problem { code: PAGE_BAD_DISPLAY, is_correct: false, grade: "1-1" });
    v.push(Problem { code: PAGE_WRONG_MOTTO, is_correct: false, grade: "1-2" });
    v.push(Problem { code: PAGE_BAD_COLOR, is_correct: false, grade: "1-3" });
    v.push(Problem { code: PAGE_UNCLOSED_RULE, is_correct: false, grade: "1-4" });
    v.push(Problem { code: PAGE, is_correct: false, grade: AUTO_HIDE_GRADE });
    assert(v@ =~= problem_pool());
    v
}

/// Character-wise equality of two strings.
pub fn str_eq(a: &str, b: &str) -> (r: bool)
    ensures
        r == (a@ == b@),
{
    let n = a.unicode_len();
    if n != b.unicode_len() {
        return false;
    }
    let mut i: usize = 0;
    while i < n
        invariant
            n == a@.len(),
            n == b@.len(),
            i <= n,
            a@.subrange(0, i as int) == b@.subrange(0, i as int),
        decreases n - i,
    {
        if a.get_char(i) != b.get_char(i) {
            assert(a@[i as int] != b@[i as int]);
            return false;
        }
        assert(a@.subrange(0, i + 1) =~= a@.subrange(0, i as int).push(a@[i as int]));
        assert(b@.subrange(0, i + 1) =~= b@.subrange(0, i as int).push(b@[i as int]));
        i = i + 1;
    }
    assert(a@ =~= a@.subrange(0, n as int));
    assert(b@ =~= b@.subrange(0, n as int));
    true
}

impl Problem {
    /// Whether this problem's text hides itself after it has been shown.
    pub open spec fn auto_hides(self) -> bool {
        self.grade@ == AUTO_HIDE_GRADE@
    }

    pub fn is_auto_hide(&self) -> (r: bool)
        ensures
            r == self.auto_hides(),
    {
        str_eq(self.grade, AUTO_HIDE_GRADE)
    }
}

} // verus!
