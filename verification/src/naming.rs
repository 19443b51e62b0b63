//! The naming resolver: every name that a descriptor holds is derived here,
//! from the struct's name and a field's name alone.

use inflector::Inflector;
use vstd::prelude::*;
use vstd::string::StringExecFns;

verus! {

/// The text that Inflector's `to_pascal_case` returns for `text`.
pub uninterp spec fn pascal_case(text: Seq<char>) -> Seq<char>;

/// The text that Inflector's `to_screaming_snake_case` returns for `text`.
pub uninterp spec fn screaming_snake_case(text: Seq<char>) -> Seq<char>;

/// The text that `str::to_uppercase` returns for `text`.
pub uninterp spec fn uppercase(text: Seq<char>) -> Seq<char>;

/// Calls Inflector's `Inflector::to_pascal_case` on a `str`. Not proved:
/// that the result depends on the text alone. The contract gives the result
/// its name and says nothing of what it is on a given text.
#[verifier::external_body]
pub(crate) fn to_pascal_case(text: &str) -> (r: String)
    ensures
        r@ == pascal_case(text@),
{
    text.to_pascal_case()
}

/// Calls Inflector's `Inflector::to_screaming_snake_case` on a `str`. Not
/// proved: that the result depends on the text alone. The contract gives the
/// result its name and says nothing of what it is on a given text.
#[verifier::external_body]
pub(crate) fn to_screaming_snake_case(text: &str) -> (r: String)
    ensures
        r@ == screaming_snake_case(text@),
{
    text.to_screaming_snake_case()
}

/// Calls `str::to_uppercase`. Not proved: that the result depends on the
/// text alone, the upper-case form that Unicode defines for it whatever the
/// locale. The contract gives the result its name and says nothing of what
/// it is on a given text.
#[verifier::external_body]
pub(crate) fn to_uppercase(text: &str) -> (r: String)
    ensures
        r@ == uppercase(text@),
{
    text.to_uppercase()
}

/// The name of the uniform slot of a field: `{Struct}_{field}`.
pub open spec fn uniform_name_of(struct_name: Seq<char>, field_name: Seq<char>) -> Seq<char> {
    struct_name + "_"@ + field_name
}

/// The name of the texture of a field: textures share the names of uniforms.
pub open spec fn texture_name_of(struct_name: Seq<char>, field_name: Seq<char>) -> Seq<char> {
    uniform_name_of(struct_name, field_name)
}

/// The name of the sampler that goes with a uniform slot: `{uniform}_sampler`.
pub open spec fn sampler_name_of(uniform_name: Seq<char>) -> Seq<char> {
    uniform_name + "_sampler"@
}

/// A shader define: `{PREFIX}_{LABEL}{suffix}`.
pub open spec fn shader_def_token_of(prefix: Seq<char>, label: Seq<char>, suffix: Seq<char>) -> Seq<
    char,
> {
    prefix + "_"@ + label + suffix
}

/// The base name of a field's vertex attributes: `I_{Struct}_{Field}` for a
/// field that steps per instance, `{Struct}_{Field}` for one that steps per
/// vertex. `field` is the field's name in Pascal case.
pub open spec fn vertex_attribute_name_of(struct_name: Seq<char>, field: Seq<char>, instance: bool) -> Seq<
    char,
> {
    if instance {
        "I_"@ + struct_name + "_"@ + field
    } else {
        struct_name + "_"@ + field
    }
}

/// The character of one decimal digit.
pub open spec fn digit_of(digit: nat) -> char {
    if digit == 0 {
        '0'
    } else if digit == 1 {
        '1'
    } else if digit == 2 {
        '2'
    } else if digit == 3 {
        '3'
    } else if digit == 4 {
        '4'
    } else if digit == 5 {
        '5'
    } else if digit == 6 {
        '6'
    } else if digit == 7 {
        '7'
    } else if digit == 8 {
        '8'
    } else {
        '9'
    }
}

/// A number written in decimal, without leading zeros.
pub open spec fn decimal_of(n: nat) -> Seq<char>
    decreases n,
{
    if n < 10 {
        seq![digit_of(n)]
    } else {
        decimal_of(n / 10).push(digit_of(n % 10))
    }
}

/// The name of component `index` of a field that expands to `count`
/// components: the base name alone where there is one component,
/// `{base}_{index}` where there are more.
pub open spec fn component_name_of(base: Seq<char>, index: nat, count: nat) -> Seq<char> {
    if count > 1 {
        base + "_"@ + decimal_of(index)
    } else {
        base
    }
}

pub fn uniform_name(struct_name: &str, field_name: &str) -> (r: String)
    ensures
        r@ == uniform_name_of(struct_name@, field_name@),
{
    let mut name: String = struct_name.to_owned();
    name.append("_");
    name.append(field_name);
    name
}

pub fn texture_name(struct_name: &str, field_name: &str) -> (r: String)
    ensures
        r@ == texture_name_of(struct_name@, field_name@),
{
    uniform_name(struct_name, field_name)
}

pub fn sampler_name(uniform_name: &str) -> (r: String)
    ensures
        r@ == sampler_name_of(uniform_name@),
{
    let mut name: String = uniform_name.to_owned();
    name.append("_sampler");
    name
}

pub fn shader_def_token(prefix: &str, label: &str, suffix: &str) -> (r: String)
    ensures
        r@ == shader_def_token_of(prefix@, label@, suffix@),
{
    let mut token: String = prefix.to_owned();
    token.append("_");
    token.append(label);
    token.append(suffix);
    token
}

pub fn vertex_attribute_name(struct_name: &str, field: &str, instance: bool) -> (r: String)
    ensures
        r@ == vertex_attribute_name_of(struct_name@, field@, instance),
{
    let mut name: String = String::new();
    if instance {
        name.append("I_");
    }
    name.append(struct_name);
    name.append("_");
    name.append(field);
    assert(Seq::<char>::empty() + struct_name@ =~= struct_name@);
    assert(Seq::<char>::empty() + "I_"@ =~= "I_"@);
    name
}

/// The text of one decimal digit.
fn digit(value: usize) -> (r: &'static str)
    requires
        value < 10,
    ensures
        r@ == seq![digit_of(value as nat)],
{
    proof {
        reveal_strlit("0");
        reveal_strlit("1");
        reveal_strlit("2");
        reveal_strlit("3");
        reveal_strlit("4");
        reveal_strlit("5");
        reveal_strlit("6");
        reveal_strlit("7");
        reveal_strlit("8");
        reveal_strlit("9");
    }
    let text: &'static str = match value {
        0 => "0",
        1 => "1",
        2 => "2",
        3 => "3",
        4 => "4",
        5 => "5",
        6 => "6",
        7 => "7",
        8 => "8",
        _ => "9",
    };
    assert(text@ =~= seq![digit_of(value as nat)]);
    text
}

/// Writes a number in decimal.
pub fn decimal(n: usize) -> (r: String)
    ensures
        r@ == decimal_of(n as nat),
    decreases n,
{
    if n < 10 {
        digit(n).to_owned()
    } else {
        let mut text: String = decimal(n / 10);
        let last: &'static str = digit(n % 10);
        text.append(last);
        assert(decimal_of((n / 10) as nat) + seq![digit_of((n % 10) as nat)] =~= decimal_of(
            (n / 10) as nat,
        ).push(digit_of((n % 10) as nat)));
        text
    }
}

pub fn component_name(base: &str, index: usize, count: usize) -> (r: String)
    ensures
        r@ == component_name_of(base@, index as nat, count as nat),
{
    let mut name: String = base.to_owned();
    if count > 1 {
        name.append("_");
        let number: String = decimal(index);
        name.append(number.as_str());
    }
    name
}

} // verus!
