//! Decisions around grabbing the display: which display to capture, and
//! what the file of a captured region is called.

use vstd::prelude::*;
use vstd::string::StringExecFns;

verus! {

/// `i` is the first display that reports itself as primary.
pub open spec fn is_first_primary(primary: Seq<bool>, i: int) -> bool {
    &&& 0 <= i < primary.len()
    &&& primary[i]
    &&& forall|j: int| 0 <= j < i ==> !primary[j]
}

/// `choice` is the display to capture: the first primary one, the first one
/// of all where none is primary, none where there is no display.
pub open spec fn is_display_choice(primary: Seq<bool>, choice: Option<int>) -> bool {
    match choice {
        Some(i) => is_first_primary(primary, i) || (i == 0 && primary.len() > 0 && forall|j: int|
            0 <= j < primary.len() ==> !primary[j]),
        None => primary.len() == 0,
    }
}

/// Picks the display to capture, given for each display whether it reports
/// itself as primary.
pub fn choose_display(primary: &Vec<bool>) -> (choice: Option<usize>)
    ensures
        is_display_choice(
            primary@,
            match choice {
                Some(i) => Some(i as int),
                None => None,
            },
        ),
{
    if primary.len() == 0 {
        return None;
    }
    let mut i: usize = 0;
    while i < primary.len()
        invariant
            i <= primary.len(),
            forall|j: int| 0 <= j < i ==> !primary@[j],
        decreases primary.len() - i,
    {
        if primary[i] {
            return Some(i);
        }
        i = i + 1;
    }
    Some(0)
}

/// The numeral of one decimal digit.
pub open spec fn digit_text(digit: int) -> Seq<char> {
    if digit == 0 {
        "0"@
    } else if digit == 1 {
        "1"@
    } else if digit == 2 {
        "2"@
    } else if digit == 3 {
        "3"@
    } else if digit == 4 {
        "4"@
    } else if digit == 5 {
        "5"@
    } else if digit == 6 {
        "6"@
    } else if digit == 7 {
        "7"@
    } else if digit == 8 {
        "8"@
    } else {
        "9"@
    }
}

/// A number written in decimal, without leading zeros.
pub open spec fn decimal(n: nat) -> Seq<char>
    decreases n,
{
    if n < 10 {
        digit_text(n as int)
    } else {
        decimal(n / 10) + digit_text((n % 10) as int)
    }
}

/// The numeral of one decimal digit.
fn digit_str(digit: u64) -> (text: &'static str)
    requires
        digit < 10,
    ensures
        text@ == digit_text(digit as int),
{
    if digit == 0 {
        "0"
    } else if digit == 1 {
        "1"
    } else if digit == 2 {
        "2"
    } else if digit == 3 {
        "3"
    } else if digit == 4 {
        "4"
    } else if digit == 5 {
        "5"
    } else if digit == 6 {
        "6"
    } else if digit == 7 {
        "7"
    } else if digit == 8 {
        "8"
    } else {
        "9"
    }
}

/// Writes a number in decimal at the end of a text.
pub fn append_decimal(out: &mut String, n: u64)
    ensures
        final(out)@ == old(out)@ + decimal(n as nat),
    decreases n,
{
    if n >= 10 {
        append_decimal(out, n / 10);
    }
    out.append(digit_str(n % 10));
}

/// The name of the file of a region captured at the given time, in
/// milliseconds: different for captures at different times.
pub open spec fn screenshot_name(millis: nat) -> Seq<char> {
    "screenshot-"@ + decimal(millis) + ".png"@
}

/// Names the file for a region captured at the given time.
pub fn screenshot_file_name(millis: u64) -> (name: String)
    ensures
        name@ == screenshot_name(millis as nat),
{
    let mut name = String::from_str("screenshot-");
    append_decimal(&mut name, millis);
    name.append(".png");
    name
}

/// Each digit has a numeral of one character, and no two digits share one.
proof fn lemma_digits_differ(a: int, b: int)
    requires
        0 <= a < 10,
        0 <= b < 10,
    ensures
        digit_text(a).len() == 1,
        a != b ==> digit_text(a)[0] != digit_text(b)[0],
{
    reveal_strlit("0");
    reveal_strlit("1");
    reveal_strlit("2");
    reveal_strlit("3");
    reveal_strlit("4");
    reveal_strlit("5");
    reveal_strlit("6");
    reveal_strlit("7");
    reveal_strlit("8");
    reveal_strlit("9");
}

/// A numeral has one digit for a number below ten and more for any other.
proof fn lemma_decimal_length(n: nat)
    ensures
        decimal(n).len() >= 1,
        n < 10 <==> decimal(n).len() == 1,
    decreases n,
{
    lemma_digits_differ((n % 10) as int, 0);
    if n >= 10 {
        lemma_decimal_length(n / 10);
    }
}

/// Different numbers are written differently.
pub proof fn lemma_decimal_is_injective(a: nat, b: nat)
    requires
        decimal(a) == decimal(b),
    ensures
        a == b,
    decreases a,
{
    lemma_decimal_length(a);
    lemma_decimal_length(b);
    lemma_digits_differ((a % 10) as int, (b % 10) as int);
    if a >= 10 {
        let front_a = decimal(a / 10);
        let front_b = decimal(b / 10);
        let last_a = digit_text((a % 10) as int);
        let last_b = digit_text((b % 10) as int);
        lemma_digits_differ((b % 10) as int, (a % 10) as int);
        assert(b >= 10);
        assert(decimal(a) == front_a + last_a);
        assert(decimal(b) == front_b + last_b);
        assert(front_a.len() == front_b.len());
        assert((front_a + last_a)[front_a.len() as int] == last_a[0]);
        assert((front_b + last_b)[front_b.len() as int] == last_b[0]);
        assert(a % 10 == b % 10);
        assert(front_a == (front_a + last_a).subrange(0, front_a.len() as int));
        assert(front_b == (front_b + last_b).subrange(0, front_b.len() as int));
        lemma_decimal_is_injective(a / 10, b / 10);
    }
}

/// Regions captured at different times get files of different names.
pub proof fn lemma_names_differ(earlier: nat, later: nat)
    requires
        earlier != later,
    ensures
        screenshot_name(earlier) != screenshot_name(later),
{
    let head = "screenshot-"@;
    let tail = ".png"@;
    let a = decimal(earlier);
    let b = decimal(later);
    if head + a + tail == head + b + tail {
        assert((head + a + tail).len() == head.len() + a.len() + tail.len());
        assert((head + b + tail).len() == head.len() + b.len() + tail.len());
        assert(a == (head + a + tail).subrange(head.len() as int, (head.len() + a.len()) as int));
        assert(b == (head + b + tail).subrange(head.len() as int, (head.len() + b.len()) as int));
        lemma_decimal_is_injective(earlier, later);
    }
}

} // verus!
