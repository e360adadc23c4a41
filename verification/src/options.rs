//! Options that can be switched on when the logger is initialized.

use vstd::prelude::*;
use crate::error::{ErrorView, LoggerError};

verus! {

/// Logging options that can be activated from the API.
#[derive(Clone, Copy, Debug, PartialEq, Eq, Structural)]
pub enum LogOption {
    /// Enable KVM dirty page tracking and a metric that counts dirty pages.
    LogDirtyPages,
}

impl LogOption {
    /// The name under which the option is requested.
    pub open spec fn name(self) -> Seq<char> {
        match self {
            LogOption::LogDirtyPages => "LogDirtyPages"@,
        }
    }

    /// The bit of the option in the flags of the logger.
    pub open spec fn bit(self) -> usize {
        match self {
            LogOption::LogDirtyPages => 1,
        }
    }

    /// The bit of the option in the flags of the logger.
    pub fn as_usize(self) -> (bit: usize)
        ensures
            bit == self.bit(),
    {
        match self {
            LogOption::LogDirtyPages => 1,
        }
    }

    /// Whether `res` is the answer to a request for the option with the name `s`: that option, or
    /// an error that says `s` if there is none.
    pub open spec fn is_named(res: Result<LogOption, LoggerError>, s: Seq<char>) -> bool {
        match res {
            Ok(option) => option.name() == s,
            Err(e) => {
                &&& forall|option: LogOption| option.name() != s
                &&& e@ == ErrorView::InvalidLogOption(s)
            },
        }
    }

    /// The option with the name `s`.
    pub fn from_str(s: &str) -> (res: Result<LogOption, LoggerError>)
        ensures
            LogOption::is_named(res, s@),
    {
        if s.to_owned() == "LogDirtyPages".to_owned() {
            Ok(LogOption::LogDirtyPages)
        } else {
            assert(LogOption::LogDirtyPages.name() != s@);
            Err(LoggerError::InvalidLogOption(s.to_owned()))
        }
    }
}

impl std::str::FromStr for LogOption {
    type Err = LoggerError;

    fn from_str(s: &str) -> (res: Result<LogOption, LoggerError>)
        ensures
            LogOption::is_named(res, s@),
    {
        LogOption::from_str(s)
    }
}

/// An entry of the list of requested options: a JSON value, of which only strings can name an
/// option.
#[derive(Debug)]
pub enum OptionValue {
    /// A JSON string.
    Text(String),
    /// Any other JSON value, by its debug representation.
    Other(String),
}

/// An [`OptionValue`] with its text as a character sequence.
pub enum OptionView {
    Text(Seq<char>),
    Other(Seq<char>),
}

impl View for OptionValue {
    type V = OptionView;

    open spec fn view(&self) -> OptionView {
        match *self {
            OptionValue::Text(s) => OptionView::Text(s@),
            OptionValue::Other(s) => OptionView::Other(s@),
        }
    }
}

impl OptionView {
    /// Whether this entry requests `option`.
    pub open spec fn requests(self, option: LogOption) -> bool {
        self == OptionView::Text(option.name())
    }

    /// Whether this entry requests any option at all.
    pub open spec fn is_valid(self) -> bool {
        exists|option: LogOption| self.requests(option)
    }

    /// How an error names this entry: a string by itself, any other value by its debug
    /// representation.
    pub open spec fn shown(self) -> Seq<char> {
        match self {
            OptionView::Text(s) => s,
            OptionView::Other(s) => s,
        }
    }
}

/// The views of a list of requested options.
pub open spec fn option_views(options: Seq<OptionValue>) -> Seq<OptionView> {
    options.map_values(|option: OptionValue| option@)
}

/// Every entry of the list names an option.
pub open spec fn all_valid(options: Seq<OptionView>) -> bool {
    forall|i: int| 0 <= i < options.len() ==> (#[trigger] options[i]).is_valid()
}

/// The entry at `i` is the first one that names no option.
pub open spec fn first_invalid_at(options: Seq<OptionView>, i: int) -> bool {
    &&& 0 <= i < options.len()
    &&& !options[i].is_valid()
    &&& all_valid(options.take(i))
}

/// The first entry that names no option, in a list that has one.
pub open spec fn first_invalid(options: Seq<OptionView>) -> OptionView {
    options[choose|i: int| first_invalid_at(options, i)]
}

/// The flags that a list of options asks for: the bit of an option is set if and only if some
/// entry requests that option.
pub open spec fn requested_flags(options: Seq<OptionView>) -> usize {
    if exists|i: int| 0 <= i < options.len()
        && (#[trigger] options[i]).requests(LogOption::LogDirtyPages) {
        LogOption::LogDirtyPages.bit()
    } else {
        0
    }
}

/// No two entries of a list are both the first that names no option.
pub proof fn lemma_first_invalid_unique(options: Seq<OptionView>, i: int)
    requires
        first_invalid_at(options, i),
    ensures
        !all_valid(options),
        first_invalid(options) == options[i],
{
    let j = choose|j: int| first_invalid_at(options, j);
    assert(first_invalid_at(options, j));
    if i < j {
        assert(options.take(j)[i].is_valid());
    } else if j < i {
        assert(options.take(i)[j].is_valid());
    }
}

/// What the JSON text `json` says of an option: nothing if it is not valid JSON, the contents of a
/// JSON string, or the debug representation of any other JSON value.
pub uninterp spec fn json_option(json: Seq<char>) -> Option<OptionView>;

/// Whether a JSON string can hold `text` as it is: without quotes, backslashes and control
/// characters.
pub open spec fn is_plain(text: Seq<char>) -> bool {
    forall|i: int| #![trigger text[i]]
        0 <= i < text.len() ==> text[i] != '"' && text[i] != '\\' && text[i] >= ' '
}

/// The JSON string that holds `text` as it is.
pub open spec fn quoted(text: Seq<char>) -> Seq<char> {
    seq!['"'] + text + seq!['"']
}

/// Parses `json` with `serde_json::from_str` into a `serde_json::Value` and takes from it the
/// contents of a string, or the `Debug` representation of any other value. It is claimed that the
/// outcome depends on the text alone, and that plain text between quotes is a string with that
/// text as its contents. What other texts parse to is left unsaid.
#[verifier::external_body]
fn parse_json(json: &str) -> (res: Option<OptionValue>)
    ensures
        option_of(res) == json_option(json@),
        forall|text: Seq<char>| is_plain(text) && json@ == #[trigger] quoted(text)
            ==> option_of(res) == Some(OptionView::Text(text)),
{
    match serde_json::from_str::<serde_json::Value>(json) {
        Ok(serde_json::Value::String(s)) => Some(OptionValue::Text(s)),
        Ok(other) => Some(OptionValue::Other(format!("{:?}", other))),
        Err(_) => None,
    }
}

/// The view of an entry that may be missing.
pub open spec fn option_of(value: Option<OptionValue>) -> Option<OptionView> {
    match value {
        Some(v) => Some(v@),
        None => None,
    }
}

impl OptionValue {
    /// The entry that the JSON text `json` stands for, or nothing if `json` is not valid JSON.
    pub fn from_json(json: &str) -> (res: Option<OptionValue>)
        ensures
            option_of(res) == json_option(json@),
            forall|text: Seq<char>| is_plain(text) && json@ == #[trigger] quoted(text)
                ==> option_of(res) == Some(OptionView::Text(text)),
    {
        parse_json(json)
    }
}

/// The flags that `options` ask for, or an error that names the first entry that is no option.
pub fn flags_of(options: &[OptionValue]) -> (res: Result<usize, LoggerError>)
    ensures
        match res {
            Ok(flags) => {
                &&& all_valid(option_views(options@))
                &&& flags == requested_flags(option_views(options@))
            },
            Err(e) => {
                &&& !all_valid(option_views(options@))
                &&& e@ == ErrorView::InvalidLogOption(first_invalid(option_views(options@)).shown())
            },
        },
{
    let ghost views = option_views(options@);
    let mut flags: usize = 0;
    let mut i: usize = 0;
    while i < options.len()
        invariant
            i <= options.len(),
            views == option_views(options@),
            all_valid(views.take(i as int)),
            flags == requested_flags(views.take(i as int)),
        decreases options.len() - i,
    {
        let ghost before = views.take(i as int);
        let ghost after = views.take(i + 1);
        assert(after == before.push(views[i as int]));
        match &options[i] {
            OptionValue::Text(s) => {
                match LogOption::from_str(s.as_str()) {
                    Ok(option) => {
                        let bit: usize = option.as_usize();
                        assert(0usize | 1usize == 1usize) by (bit_vector);
                        assert(1usize | 1usize == 1usize) by (bit_vector);
                        flags = flags | bit;
                        proof {
                            assert(views[i as int].requests(option));
                            assert(after[i as int].requests(option));
                            assert forall|k: int| 0 <= k < after.len() implies (
                            #[trigger] after[k]).is_valid() by {
                                if k < i {
                                    assert(before[k].is_valid());
                                }
                            }
                        }
                    },
                    Err(_) => {
                        proof {
                            assert(first_invalid_at(views, i as int));
                            lemma_first_invalid_unique(views, i as int);
                        }
                        return Err(LoggerError::InvalidLogOption(s.clone()));
                    },
                }
            },
            OptionValue::Other(shown) => {
                proof {
                    assert(first_invalid_at(views, i as int));
                    lemma_first_invalid_unique(views, i as int);
                }
                return Err(LoggerError::InvalidLogOption(shown.clone()));
            },
        }
        i += 1;
    }
    assert(views.take(i as int) == views);
    Ok(flags)
}

} // verus!
