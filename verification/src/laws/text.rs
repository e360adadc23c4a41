//! What numbers and time stamps look like as text.

use vstd::prelude::*;
use crate::time::LocalTime;

verus! {

/// The number that a decimal digit stands for.
pub open spec fn digit_value(c: char) -> int {
    c as int - '0' as int
}

/// Whether a text consists of decimal digits.
pub open spec fn is_number(text: Seq<char>) -> bool {
    forall|i: int| #![trigger text[i]] 0 <= i < text.len() ==> 0 <= digit_value(text[i]) <= 9
}

/// The number that a text of decimal digits stands for.
pub open spec fn value(text: Seq<char>) -> int
    decreases text.len(),
{
    if text.len() == 0 {
        0
    } else {
        value(text.drop_last()) * 10 + digit_value(text.last())
    }
}

/// A number reads back from its decimal text, which consists of digits and does not start with a
/// zero, unless it is zero itself.
pub proof fn law_decimal_reads_back(n: nat)
    ensures
        value(crate::text::decimal(n)) == n,
        is_number(crate::text::decimal(n)),
        crate::text::decimal(n).len() >= 1,
        n > 0 ==> crate::text::decimal(n)[0] != '0',
        n == 0 ==> crate::text::decimal(n) == seq!['0'],
    decreases n,
{
    let text = crate::text::decimal(n);
    if n < 10 {
        assert(text.drop_last() =~= Seq::<char>::empty());
        assert(value(text.drop_last()) == 0);
        assert(digit_value(text[0]) == n);
    } else {
        law_decimal_reads_back(n / 10);
        let head = crate::text::decimal(n / 10);
        assert(text.drop_last() =~= head);
        assert(digit_value(text.last()) == n % 10);
        assert forall|i: int| 0 <= i < text.len() implies 0 <= digit_value(#[trigger] text[i])
            <= 9 by {
            if i < head.len() {
                assert(text[i] == head[i]);
            }
        }
    }
}

/// Zeros count nothing.
proof fn lemma_zeros_count_nothing(zeros: Seq<char>)
    requires
        forall|i: int| 0 <= i < zeros.len() ==> zeros[i] == '0',
    ensures
        value(zeros) == 0,
    decreases zeros.len(),
{
    if zeros.len() > 0 {
        lemma_zeros_count_nothing(zeros.drop_last());
    }
}

/// Zeros in front of a number do not change it.
proof fn lemma_leading_zeros(zeros: Seq<char>, text: Seq<char>)
    requires
        forall|i: int| 0 <= i < zeros.len() ==> zeros[i] == '0',
    ensures
        value(zeros + text) == value(text),
    decreases text.len(),
{
    if text.len() == 0 {
        assert(zeros + text =~= zeros);
        lemma_zeros_count_nothing(zeros);
    } else {
        lemma_leading_zeros(zeros, text.drop_last());
        assert((zeros + text).drop_last() =~= zeros + text.drop_last());
    }
}

/// A padded number has at least the given width, and reads back. It is wider only if its digits
/// do not fit, and then nothing is added to them.
pub proof fn law_padded_reads_back(n: nat, width: nat)
    ensures
        value(crate::text::padded(n, width)) == n,
        is_number(crate::text::padded(n, width)),
        crate::text::padded(n, width).len() >= width,
        crate::text::padded(n, width).len() > width ==> crate::text::padded(n, width)
            == crate::text::decimal(n),
{
    law_decimal_reads_back(n);
    let digits = crate::text::decimal(n);
    if digits.len() < width {
        let zeros = Seq::new((width - digits.len()) as nat, |i: int| '0');
        lemma_leading_zeros(zeros, digits);
        let text = crate::text::padded(n, width);
        assert(text =~= zeros + digits);
        assert forall|i: int| 0 <= i < text.len() implies 0 <= digit_value(#[trigger] text[i])
            <= 9 by {
            if i >= zeros.len() {
                assert(text[i] == digits[i - zeros.len()]);
            }
        }
    }
}

/// A number below ten to the power of `width` has at most `width` digits.
proof fn lemma_decimal_len(n: nat, width: nat)
    requires
        width >= 1,
        n < vstd::arithmetic::power::pow(10, width),
    ensures
        1 <= crate::text::decimal(n).len() <= width,
    decreases n,
{
    broadcast use vstd::arithmetic::power::lemma_pow1;

    if n >= 10 {
        assert(width > 1) by {
            if width == 1 {
                assert(vstd::arithmetic::power::pow(10, 1) == 10);
            }
        }
        let less = (width - 1) as nat;
        assert(vstd::arithmetic::power::pow(10, width) == 10 * vstd::arithmetic::power::pow(
            10,
            less,
        )) by {
            reveal(vstd::arithmetic::power::pow);
        }
        lemma_decimal_len(n / 10, less);
    }
}

/// A number below ten to the power of `width` is padded to exactly `width` digits, and reads back.
proof fn lemma_padded_field(n: nat, width: nat)
    requires
        width >= 1,
        n < vstd::arithmetic::power::pow(10, width),
    ensures
        crate::text::padded(n, width).len() == width,
        is_number(crate::text::padded(n, width)),
        value(crate::text::padded(n, width)) == n,
{
    lemma_decimal_len(n, width);
    law_padded_reads_back(n, width);
}

/// The powers of ten that bound the fields of a time stamp.
proof fn lemma_powers_of_ten()
    ensures
        vstd::arithmetic::power::pow(10, 2) == 100,
        vstd::arithmetic::power::pow(10, 4) == 10000,
        vstd::arithmetic::power::pow(10, 9) == 1_000_000_000,
{
    reveal(vstd::arithmetic::power::pow);
    reveal_with_fuel(vstd::arithmetic::power::pow, 10);
}

/// Where the fields and the separators stand in a time stamp whose fields have fixed widths.
proof fn lemma_places_in_a_time_stamp(
    year: Seq<char>,
    month: Seq<char>,
    day: Seq<char>,
    hour: Seq<char>,
    minute: Seq<char>,
    second: Seq<char>,
    nanosecond: Seq<char>,
)
    requires
        year.len() == 4,
        month.len() == 2,
        day.len() == 2,
        hour.len() == 2,
        minute.len() == 2,
        second.len() == 2,
        nanosecond.len() == 9,
    ensures
        ({
            let stamp = year + seq!['-'] + month + seq!['-'] + day + seq!['T'] + hour + seq![':']
                + minute + seq![':'] + second + seq!['.'] + nanosecond;
            &&& stamp.len() == 29
            &&& stamp[4] == '-' && stamp[7] == '-' && stamp[10] == 'T'
            &&& stamp[13] == ':' && stamp[16] == ':' && stamp[19] == '.'
            &&& stamp.subrange(0, 4) == year
            &&& stamp.subrange(5, 7) == month
            &&& stamp.subrange(8, 10) == day
            &&& stamp.subrange(11, 13) == hour
            &&& stamp.subrange(14, 16) == minute
            &&& stamp.subrange(17, 19) == second
            &&& stamp.subrange(20, 29) == nanosecond
        }),
{
    let stamp = year + seq!['-'] + month + seq!['-'] + day + seq!['T'] + hour + seq![':'] + minute
        + seq![':'] + second + seq!['.'] + nanosecond;
    assert(stamp.subrange(0, 4) =~= year);
    assert(stamp.subrange(5, 7) =~= month);
    assert(stamp.subrange(8, 10) =~= day);
    assert(stamp.subrange(11, 13) =~= hour);
    assert(stamp.subrange(14, 16) =~= minute);
    assert(stamp.subrange(17, 19) =~= second);
    assert(stamp.subrange(20, 29) =~= nanosecond);
}

/// A time stamp holds the calendar fields in order, each with leading zeros to its width, with
/// `-`, `-`, `T`, `:`, `:` and `.` between them.
pub proof fn law_fields_of_a_time_stamp(now: LocalTime)
    ensures
        now.stamp() == crate::text::padded(now.year as nat, 4) + seq!['-'] + crate::text::padded(
            now.month as nat,
            2,
        ) + seq!['-'] + crate::text::padded(now.day as nat, 2) + seq!['T'] + crate::text::padded(
            now.hour as nat,
            2,
        ) + seq![':'] + crate::text::padded(now.minute as nat, 2) + seq![':']
            + crate::text::padded(now.second as nat, 2) + seq!['.'] + crate::text::padded(
            now.nanosecond as nat,
            9,
        ),
{
    reveal_strlit("-");
    reveal_strlit("T");
    reveal_strlit(":");
    reveal_strlit(".");
    assert("-"@ =~= seq!['-']);
    assert("T"@ =~= seq!['T']);
    assert(":"@ =~= seq![':']);
    assert("."@ =~= seq!['.']);
}

/// The time stamp of a line always has the format `%Y-%m-%dT%H:%M:%S.%f`: each field has a fixed
/// width, so the separators stand at fixed places, and every field of the time reads back from
/// its place.
pub proof fn law_shape_of_a_time_stamp(now: LocalTime)
    requires
        now.year < 10000,
        now.month < 100,
        now.day < 100,
        now.hour < 100,
        now.minute < 100,
        now.second < 100,
        now.nanosecond < 1_000_000_000,
    ensures
        now.stamp().len() == 29,
        now.stamp()[4] == '-',
        now.stamp()[7] == '-',
        now.stamp()[10] == 'T',
        now.stamp()[13] == ':',
        now.stamp()[16] == ':',
        now.stamp()[19] == '.',
        is_number(now.stamp().subrange(0, 4)) && value(now.stamp().subrange(0, 4)) == now.year,
        is_number(now.stamp().subrange(5, 7)) && value(now.stamp().subrange(5, 7)) == now.month,
        is_number(now.stamp().subrange(8, 10)) && value(now.stamp().subrange(8, 10)) == now.day,
        is_number(now.stamp().subrange(11, 13)) && value(now.stamp().subrange(11, 13)) == now.hour,
        is_number(now.stamp().subrange(14, 16)) && value(now.stamp().subrange(14, 16))
            == now.minute,
        is_number(now.stamp().subrange(17, 19)) && value(now.stamp().subrange(17, 19))
            == now.second,
        is_number(now.stamp().subrange(20, 29)) && value(now.stamp().subrange(20, 29))
            == now.nanosecond,
{
    lemma_powers_of_ten();
    law_fields_of_a_time_stamp(now);
    let year = crate::text::padded(now.year as nat, 4);
    let month = crate::text::padded(now.month as nat, 2);
    let day = crate::text::padded(now.day as nat, 2);
    let hour = crate::text::padded(now.hour as nat, 2);
    let minute = crate::text::padded(now.minute as nat, 2);
    let second = crate::text::padded(now.second as nat, 2);
    let nanosecond = crate::text::padded(now.nanosecond as nat, 9);
    lemma_padded_field(now.year as nat, 4);
    lemma_padded_field(now.month as nat, 2);
    lemma_padded_field(now.day as nat, 2);
    lemma_padded_field(now.hour as nat, 2);
    lemma_padded_field(now.minute as nat, 2);
    lemma_padded_field(now.second as nat, 2);
    lemma_padded_field(now.nanosecond as nat, 9);
    lemma_places_in_a_time_stamp(year, month, day, hour, minute, second, nanosecond);
}

} // verus!
