//! The global options: what each is called, which command-line flag it sets,
//! and what kind of value it takes.

use vstd::prelude::*;
use crate::text::texts;

verus! {

broadcast use vstd::string::group_string_axioms;

/// Custom texts for the two states of a boolean option.
#[derive(Clone, Debug, PartialEq, Eq)]
pub struct TrueFalseValue {
    /// The text that stands for the `true` state.
    true_value: String,
    /// The text that stands for the `false` state.
    false_value: String,
}

/// What a [`TrueFalseValue`] holds, as mathematical text.
pub struct TrueFalseValueView {
    pub true_value: Seq<char>,
    pub false_value: Seq<char>,
}

impl View for TrueFalseValue {
    type V = TrueFalseValueView;

    closed spec fn view(&self) -> TrueFalseValueView {
        TrueFalseValueView { true_value: self.true_value@, false_value: self.false_value@ }
    }
}

impl TrueFalseValue {
    /// A pair of texts for the two states.
    pub fn new(true_value: &str, false_value: &str) -> (out: Self)
        ensures
            out@ == (TrueFalseValueView { true_value: true_value@, false_value: false_value@ }),
    {
        TrueFalseValue { true_value: true_value.to_string(), false_value: false_value.to_string() }
    }

    /// The text that stands for `true`.
    pub fn true_value(&self) -> (out: &str)
        ensures
            out@ == self@.true_value,
    {
        self.true_value.as_str()
    }

    /// The text that stands for `false`.
    pub fn false_value(&self) -> (out: &str)
        ensures
            out@ == self@.false_value,
    {
        self.false_value.as_str()
    }
}

/// The kind of a global option, with what is particular to that kind.
#[derive(Clone, Debug, PartialEq, Eq)]
pub enum OptionDefinition {
    /// An option that takes a text, possibly one of a fixed list.
    String {
        /// The values that are allowed, where the list is closed.
        choices: Option<Vec<String>>,
    },
    /// An option that is on or off.
    Boolean {
        /// Whether the flag may be negated with a `no` prefix.
        support_no_prefix: bool,
        /// Custom texts for the two states, where the flag takes a value.
        values: Option<TrueFalseValue>,
    },
}

/// What an [`OptionDefinition`] holds, as mathematical values.
pub enum OptionDefinitionView {
    String { choices: Option<Seq<Seq<char>>> },
    Boolean { support_no_prefix: bool, values: Option<TrueFalseValueView> },
}

impl View for OptionDefinition {
    type V = OptionDefinitionView;

    open spec fn view(&self) -> OptionDefinitionView {
        match self {
            OptionDefinition::String { choices } => OptionDefinitionView::String {
                choices: match choices {
                    Some(list) => Some(texts(list@)),
                    None => None,
                },
            },
            OptionDefinition::Boolean { support_no_prefix, values } => {
                OptionDefinitionView::Boolean {
                    support_no_prefix: *support_no_prefix,
                    values: match values {
                        Some(pair) => Some(pair@),
                        None => None,
                    },
                }
            },
        }
    }
}

/// One global option.
#[derive(Clone, Debug, PartialEq, Eq)]
pub struct GlobalOptions {
    /// The name shown to the user.
    name: String,
    /// A sentence that says what the option does.
    description: String,
    /// The command-line flag that the option sets.
    flag: String,
    /// The kind of the option.
    option: OptionDefinition,
}

/// What a [`GlobalOptions`] holds, as mathematical values.
pub struct GlobalOptionsView {
    pub name: Seq<char>,
    pub description: Seq<char>,
    pub flag: Seq<char>,
    pub option: OptionDefinitionView,
}

impl View for GlobalOptions {
    type V = GlobalOptionsView;

    closed spec fn view(&self) -> GlobalOptionsView {
        GlobalOptionsView {
            name: self.name@,
            description: self.description@,
            flag: self.flag@,
            option: self.option@,
        }
    }
}

/// The views of a list of options, in the list's order.
pub open spec fn option_views(items: Seq<GlobalOptions>) -> Seq<GlobalOptionsView> {
    items.map_values(|item: GlobalOptions| item@)
}

/// A boolean option whose flag takes no value.
pub open spec fn switch(
    name: Seq<char>,
    description: Seq<char>,
    flag: Seq<char>,
    support_no_prefix: bool,
) -> GlobalOptionsView {
    GlobalOptionsView {
        name,
        description,
        flag,
        option: OptionDefinitionView::Boolean { support_no_prefix, values: None },
    }
}

/// A boolean option whose flag takes one of two texts.
pub open spec fn toggle(
    name: Seq<char>,
    description: Seq<char>,
    flag: Seq<char>,
    true_value: Seq<char>,
    false_value: Seq<char>,
) -> GlobalOptionsView {
    GlobalOptionsView {
        name,
        description,
        flag,
        option: OptionDefinitionView::Boolean {
            support_no_prefix: false,
            values: Some(TrueFalseValueView { true_value, false_value }),
        },
    }
}

/// The logging levels, from the quietest to the most talkative.
pub open spec fn log_levels() -> Seq<Seq<char>> {
    seq![
        "quiet"@,
        "panic"@,
        "fatal"@,
        "error"@,
        "warning"@,
        "info"@,
        "verbose"@,
        "debug"@,
        "trace"@,
    ]
}

/// The catalogue of global options, in the order in which they are offered.
pub open spec fn catalogue() -> Seq<GlobalOptionsView> {
    seq![
        toggle(
            "repeat log"@,
            "Repeat a log output instead of compressing it"@,
            "loglevel"@,
            "repeat"@,
            "-repeat"@,
        ),
        toggle(
            "prefix [level] log"@,
            "Prefix [level] to each message line"@,
            "loglevel"@,
            "level"@,
            "-level"@,
        ),
        GlobalOptionsView {
            name: "loglevel"@,
            description: "Set logging level"@,
            flag: "loglevel"@,
            option: OptionDefinitionView::String { choices: Some(log_levels()) },
        },
        switch(
            "report"@,
            "Dump full command line and log output to a file"@,
            "report"@,
            false,
        ),
        switch("hide banner"@, "Suppress printing banner"@, "hide_banner"@, false),
        switch("overwrite file"@, "Overwrite output file without asking"@, "y"@, false),
        switch(
            "do not overwrite file"@,
            "Do not overwrite output files, and exit immediately if a specified output file already exists."@,
            "n"@,
            false,
        ),
        switch("show stats"@, "Print progress report during encoding"@, "stats"@, true),
    ]
}

/// No two options of the catalogue share a name, so a name finds at most one
/// option.
pub proof fn catalogue_names_are_distinct()
    ensures
        catalogue().len() == 8,
        forall|i: int, j: int|
            0 <= i < j < catalogue().len() ==> #[trigger] catalogue()[i].name
                != #[trigger] catalogue()[j].name,
{
    reveal_strlit("repeat log");
    reveal_strlit("prefix [level] log");
    reveal_strlit("loglevel");
    reveal_strlit("report");
    reveal_strlit("hide banner");
    reveal_strlit("overwrite file");
    reveal_strlit("do not overwrite file");
    reveal_strlit("show stats");
    let names = catalogue().map_values(|item: GlobalOptionsView| item.name);
    assert(names[0].len() == 10);
    assert(names[1].len() == 18);
    assert(names[2].len() == 8);
    assert(names[3].len() == 6);
    assert(names[4].len() == 11);
    assert(names[5].len() == 14);
    assert(names[6].len() == 21);
    assert(names[7].len() == 10 && names[7][0] == 's' && names[0][0] == 'r');
    assert forall|i: int, j: int| 0 <= i < j < catalogue().len() implies #[trigger] catalogue()[i].name
        != #[trigger] catalogue()[j].name by {
        assert(names[i] == catalogue()[i].name);
        assert(names[j] == catalogue()[j].name);
    }
}

impl GlobalOptions {
    /// A boolean option whose flag takes no value.
    fn switch(name: &str, description: &str, flag: &str, support_no_prefix: bool) -> (out: Self)
        ensures
            out@ == switch(name@, description@, flag@, support_no_prefix),
    {
        GlobalOptions {
            name: name.to_string(),
            description: description.to_string(),
            flag: flag.to_string(),
            option: OptionDefinition::Boolean { support_no_prefix, values: None },
        }
    }

    /// A boolean option whose flag takes one of two texts.
    fn toggle(
        name: &str,
        description: &str,
        flag: &str,
        true_value: &str,
        false_value: &str,
    ) -> (out: Self)
        ensures
            out@ == toggle(name@, description@, flag@, true_value@, false_value@),
    {
        GlobalOptions {
            name: name.to_string(),
            description: description.to_string(),
            flag: flag.to_string(),
            option: OptionDefinition::Boolean {
                support_no_prefix: false,
                values: Some(TrueFalseValue::new(true_value, false_value)),
            },
        }
    }

    /// All global options, in the order of the catalogue.
    #[must_use]
    pub fn all() -> (out: Vec<Self>)
        ensures
            option_views(out@) == catalogue(),
    {
        let levels: Vec<String> = vec![
            "quiet".to_string(),
            "panic".to_string(),
            "fatal".to_string(),
            "error".to_string(),
            "warning".to_string(),
            "info".to_string(),
            "verbose".to_string(),
            "debug".to_string(),
            "trace".to_string(),
        ];
        assert(texts(levels@) =~= log_levels());
        let out = vec![
            Self::toggle(
                "repeat log",
                "Repeat a log output instead of compressing it",
                "loglevel",
                "repeat",
                "-repeat",
            ),
            Self::toggle(
                "prefix [level] log",
                "Prefix [level] to each message line",
                "loglevel",
                "level",
                "-level",
            ),
            GlobalOptions {
                name: "loglevel".to_string(),
                description: "Set logging level".to_string(),
                flag: "loglevel".to_string(),
                option: OptionDefinition::String { choices: Some(levels) },
            },
            Self::switch(
                "report",
                "Dump full command line and log output to a file",
                "report",
                false,
            ),
            Self::switch("hide banner", "Suppress printing banner", "hide_banner", false),
            Self::switch("overwrite file", "Overwrite output file without asking", "y", false),
            Self::switch(
                "do not overwrite file",
                "Do not overwrite output files, and exit immediately if a specified output file already exists.",
                "n",
                false,
            ),
            Self::switch("show stats", "Print progress report during encoding", "stats", true),
        ];
        assert(option_views(out@) =~= catalogue());
        out
    }

    /// The name shown to the user.
    pub fn name(&self) -> (out: &str)
        ensures
            out@ == self@.name,
    {
        self.name.as_str()
    }

    /// A sentence that says what the option does.
    pub fn description(&self) -> (out: &str)
        ensures
            out@ == self@.description,
    {
        self.description.as_str()
    }

    /// The command-line flag that the option sets.
    pub fn flag(&self) -> (out: &str)
        ensures
            out@ == self@.flag,
    {
        self.flag.as_str()
    }

    /// The kind of the option.
    pub fn option(&self) -> (out: &OptionDefinition)
        ensures
            out@ == self@.option,
    {
        &self.option
    }
}

} // verus!
