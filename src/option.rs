//! Option descriptors and the text form of option values.
use vstd::prelude::*;

verus! {

/// Status code the host expects from a callback that went through.
pub const RC_OK: i32 = 0;

/// The type of a configuration option, as the host names it.
#[derive(Clone, Copy, Debug, PartialEq, Eq, Structural)]
pub enum OptionType {
    Boolean,
    Integer,
    String,
    Color,
}

/// The host's name for an option type.
pub open spec fn option_type_text(t: OptionType) -> Seq<char> {
    match t {
        OptionType::Boolean => "boolean"@,
        OptionType::Integer => "integer"@,
        OptionType::String => "string"@,
        OptionType::Color => "color"@,
    }
}

impl OptionType {
    /// The name under which the host knows this option type.
    pub fn as_str(&self) -> (r: &'static str)
        ensures
            r@ == option_type_text(*self),
    {
        match self {
            OptionType::Boolean => "boolean",
            OptionType::Integer => "integer",
            OptionType::String => "string",
            OptionType::Color => "color",
        }
    }
}

/// Text form of a boolean value: `"on"` or `"off"`.
pub open spec fn bool_text(b: bool) -> Seq<char> {
    if b {
        seq!['o', 'n']
    } else {
        seq!['o', 'f', 'f']
    }
}

/// The boolean that a text stands for; only `"on"` and `"off"` are valid.
pub open spec fn parse_bool_text(t: Seq<char>) -> Option<bool> {
    if t == bool_text(true) {
        Some(true)
    } else if t == bool_text(false) {
        Some(false)
    } else {
        None
    }
}

/// Encodes a boolean as the host's text token.
pub fn bool_token(b: bool) -> (r: &'static str)
    ensures
        r@ == bool_text(b),
{
    proof {
        reveal_strlit("on");
        reveal_strlit("off");
    }
    if b {
        "on"
    } else {
        "off"
    }
}

/// Decodes a boolean text token; `None` for anything but `"on"` and `"off"`.
pub fn parse_boolean(text: &str) -> (r: Option<bool>)
    ensures
        r == parse_bool_text(text@),
{
    let n = text.unicode_len();
    if n == 2 && text.get_char(0) == 'o' && text.get_char(1) == 'n' {
        assert(text@ =~= bool_text(true));
        Some(true)
    } else if n == 3 && text.get_char(0) == 'o' && text.get_char(1) == 'f' && text.get_char(2)
        == 'f' {
        assert(text@ =~= bool_text(false));
        Some(false)
    } else {
        assert(text@ != bool_text(true)) by {
            if text@ == bool_text(true) {
                assert(text@[0] == 'o' && text@[1] == 'n');
            }
        }
        assert(text@ != bool_text(false)) by {
            if text@ == bool_text(false) {
                assert(text@[0] == 'o' && text@[1] == 'f' && text@[2] == 'f');
            }
        }
        None
    }
}

/// Everything the host needs to create one option. Values always travel
/// in text form, whatever the option's type.
pub struct OptionDescription {
    pub name: String,
    pub description: String,
    pub option_type: OptionType,
    pub string_values: String,
    pub min: i32,
    pub max: i32,
    pub default_value: String,
    pub value: String,
    pub null_allowed: bool,
}

/// Settings of a boolean option, with its optional callbacks: `K` checks a
/// proposed value, `C` is told of a change, `D` of the option's deletion.
pub struct BooleanOptionSettings<K, C, D> {
    pub name: String,
    pub description: String,
    pub default_value: bool,
    pub value: bool,
    pub null_allowed: bool,
    pub check_cb: Option<K>,
    pub change_cb: Option<C>,
    pub delete_cb: Option<D>,
}

impl<K, C, D> BooleanOptionSettings<K, C, D> {
    /// Settings without callbacks.
    pub fn new(name: &str, description: &str, default_value: bool, value: bool) -> (r: Self)
        ensures
            r.name@ == name@,
            r.description@ == description@,
            r.default_value == default_value,
            r.value == value,
            !r.null_allowed,
            r.check_cb.is_none(),
            r.change_cb.is_none(),
            r.delete_cb.is_none(),
    {
        BooleanOptionSettings {
            name: name.to_owned(),
            description: description.to_owned(),
            default_value,
            value,
            null_allowed: false,
            check_cb: None,
            change_cb: None,
            delete_cb: None,
        }
    }

    /// The descriptor of this boolean option: values as `"on"` / `"off"`,
    /// no enumerated values and no bounds.
    pub fn description(&self) -> (r: OptionDescription)
        ensures
            r.name@ == self.name@,
            r.description@ == self.description@,
            r.option_type == OptionType::Boolean,
            r.string_values@.len() == 0,
            r.min == 0,
            r.max == 0,
            r.default_value@ == bool_text(self.default_value),
            r.value@ == bool_text(self.value),
            r.null_allowed == self.null_allowed,
    {
        OptionDescription {
            name: self.name.clone(),
            description: self.description.clone(),
            option_type: OptionType::Boolean,
            string_values: String::new(),
            min: 0,
            max: 0,
            default_value: bool_token(self.default_value).to_owned(),
            value: bool_token(self.value).to_owned(),
            null_allowed: self.null_allowed,
        }
    }
}

/// Encoding a boolean as text and decoding that text gives the boolean back.
pub proof fn lemma_bool_text_round_trip(b: bool)
    ensures
        parse_bool_text(bool_text(b)) == Some(b),
{
    assert(bool_text(true) != bool_text(false)) by {
        assert(bool_text(true).len() != bool_text(false).len());
    }
}

} // verus!
