//! Which options there are, and what requesting them does.

use vstd::prelude::*;
use crate::error::{ErrorView, LoggerError};
use crate::model::LoggerView;
use crate::options::{LogOption, OptionValue, OptionView};

verus! {

/// There is one option: it goes by the name `LogDirtyPages` and has the lowest bit.
pub proof fn law_the_option(option: LogOption)
    ensures
        option.name() == "LogDirtyPages"@,
        option.bit() == 1,
{
}

/// A name gives an option if and only if it is the name of one; otherwise the error repeats it.
pub proof fn law_answer_to_a_name(res: Result<LogOption, LoggerError>, s: Seq<char>)
    requires
        LogOption::is_named(res, s),
    ensures
        res is Ok <==> s == "LogDirtyPages"@,
        res matches Err(e) ==> (e matches LoggerError::InvalidLogOption(text) && text@ == s),
{
    assert(LogOption::LogDirtyPages.name() == "LogDirtyPages"@);
}

/// An entry of the list of options is valid if and only if it is the string `LogDirtyPages`; an
/// entry that is no string never is. In an error it is shown by its text.
pub proof fn law_valid_entries(entry: OptionView, text: Seq<char>)
    ensures
        entry.is_valid() <==> entry == OptionView::Text("LogDirtyPages"@),
        entry.requests(LogOption::LogDirtyPages) <==> entry == OptionView::Text("LogDirtyPages"@),
        !OptionView::Other(text).is_valid(),
        OptionView::Text(text).shown() == text,
        OptionView::Other(text).shown() == text,
{
    if entry == OptionView::Text("LogDirtyPages"@) {
        assert(entry.requests(LogOption::LogDirtyPages));
    }
}

/// A list is valid if and only if all its entries are.
pub proof fn law_valid_lists(options: Seq<OptionView>)
    ensures
        crate::options::all_valid(options) <==> (forall|i: int|
            0 <= i < options.len() ==> #[trigger] options[i] == OptionView::Text(
                "LogDirtyPages"@,
            )),
{
    if crate::options::all_valid(options) {
        assert forall|i: int| 0 <= i < options.len() implies #[trigger] options[i]
            == OptionView::Text("LogDirtyPages"@) by {
            assert(options[i].is_valid());
        }
    } else {
        let i = choose|i: int| 0 <= i < options.len() && !(#[trigger] options[i]).is_valid();
        law_valid_entries(options[i], Seq::empty());
    }
}

/// The flags hold the lowest bit if some entry is the string `LogDirtyPages`, and nothing
/// otherwise.
pub proof fn law_requested_flags(options: Seq<OptionView>)
    ensures
        crate::options::requested_flags(options) == (if options.contains(
            OptionView::Text("LogDirtyPages"@),
        ) {
            1usize
        } else {
            0usize
        }),
{
    if options.contains(OptionView::Text("LogDirtyPages"@)) {
        let i = choose|i: int|
            0 <= i < options.len() && options[i] == OptionView::Text("LogDirtyPages"@);
        assert(options[i].requests(LogOption::LogDirtyPages));
    }
}

/// Setting the flags either switches on what the list asks for and switches all else off, or
/// changes nothing and names the first entry that is no option. No other setting changes.
pub proof fn law_flags_are_set_as_asked(logger: LoggerView, options: Seq<OptionView>, i: int)
    ensures
        logger.flags_set(options).0 == (LoggerView {
            flags: logger.flags_set(options).0.flags,
            ..logger
        }),
        (forall|k: int|
            0 <= k < options.len() ==> #[trigger] options[k] == OptionView::Text(
                "LogDirtyPages"@,
            )) ==> logger.flags_set(options).1 is Ok && logger.flags_set(options).0.flags == (
        if options.len() > 0 {
            1usize
        } else {
            0usize
        }),
        0 <= i < options.len() && options[i] != OptionView::Text("LogDirtyPages"@) && (forall|
            k: int,
        |
            0 <= k < i ==> #[trigger] options[k] == OptionView::Text("LogDirtyPages"@)) ==> {
            &&& logger.flags_set(options).0 == logger
            &&& options[i] matches OptionView::Text(text) ==> logger.flags_set(options).1 == Err::<
                (),
                _,
            >(ErrorView::InvalidLogOption(text))
            &&& options[i] matches OptionView::Other(text) ==> logger.flags_set(options).1 == Err::<
                (),
                _,
            >(ErrorView::InvalidLogOption(text))
        },
{
    law_valid_lists(options);
    law_requested_flags(options);
    if options.len() > 0 {
        assert(options.contains(options[0]));
    }
    if 0 <= i < options.len() && options[i] != OptionView::Text("LogDirtyPages"@) && (forall|
        k: int,
    |
        0 <= k < i ==> #[trigger] options[k] == OptionView::Text("LogDirtyPages"@)) {
        law_valid_entries(options[i], Seq::empty());
        law_valid_lists(options.take(i));
        assert(crate::options::first_invalid_at(options, i));
        crate::options::lemma_first_invalid_unique(options, i);
    }
}

/// A JSON string that holds a text as it is has that text between two quotes, and any text without
/// quotes, backslashes and control characters can be held so.
pub proof fn law_quoted_text(text: Seq<char>)
    ensures
        crate::options::quoted(text).len() == text.len() + 2,
        crate::options::quoted(text).first() == '"',
        crate::options::quoted(text).last() == '"',
        crate::options::quoted(text).subrange(1, 1 + text.len() as int) == text,
        (forall|i: int|
            0 <= i < text.len() ==> #[trigger] text[i] != '"' && text[i] != '\\' && text[i] as int
                >= 0x20) <==> crate::options::is_plain(text),
{
    assert(crate::options::quoted(text).subrange(1, 1 + text.len() as int) =~= text);
}

/// A list of entries is looked at entry by entry, in its own order.
pub proof fn law_views_of_a_list(options: Seq<OptionValue>, i: int)
    requires
        0 <= i < options.len(),
    ensures
        crate::options::option_views(options).len() == options.len(),
        options[i] matches OptionValue::Text(s) ==> crate::options::option_views(options)[i]
            == OptionView::Text(s@),
        options[i] matches OptionValue::Other(s) ==> crate::options::option_views(options)[i]
            == OptionView::Other(s@),
{
}

} // verus!
