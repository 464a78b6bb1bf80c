//! How the names of commands and of API methods are made from the names
//! of the types that stand for them.

use heck::{ToLowerCamelCase, ToPascalCase, ToSnekCase};
use vstd::prelude::*;
use vstd::slice::axiom_spec_len;
use vstd::string::{StringExecFns, StringSliceAdditionalSpecFns};
use vstd::utf8::encode_utf8_decode_utf8;

verus! {

/// What `heck` makes of a name in snake case.
pub uninterp spec fn snake_case(origin: Seq<char>) -> Seq<char>;

/// What `heck` makes of a name in upper camel case.
pub uninterp spec fn upper_camel_case(origin: Seq<char>) -> Seq<char>;

/// What `heck` makes of a name in lower camel case.
pub uninterp spec fn lower_camel_case(origin: Seq<char>) -> Seq<char>;

/// What the standard library makes of a text in lower case.
pub uninterp spec fn lower_case(origin: Seq<char>) -> Seq<char>;

/// `heck::ToSnekCase::to_snek_case`, which is `to_snake_case` under
/// another name: the result depends on the text alone.
#[verifier::external_body]
fn to_snek_case(origin: &str) -> (converted: String)
    ensures
        converted@ == snake_case(origin@),
{
    origin.to_snek_case()
}

/// `heck::ToPascalCase::to_pascal_case`, which is `to_upper_camel_case`
/// under another name: the result depends on the text alone.
#[verifier::external_body]
fn to_pascal_case(origin: &str) -> (converted: String)
    ensures
        converted@ == upper_camel_case(origin@),
{
    origin.to_pascal_case()
}

/// `heck::ToLowerCamelCase::to_lower_camel_case`: the result depends on
/// the text alone.
#[verifier::external_body]
fn to_lower_camel_case(origin: &str) -> (converted: String)
    ensures
        converted@ == lower_camel_case(origin@),
{
    origin.to_lower_camel_case()
}

/// `str::to_lowercase`: the result depends on the text alone.
#[verifier::external_body]
fn to_lowercase(origin: &str) -> (converted: String)
    ensures
        converted@ == lower_case(origin@),
{
    origin.to_lowercase()
}

/// Whether two texts are the same.
pub fn same_text(a: &str, b: &str) -> (same: bool)
    ensures
        same == (a@ == b@),
{
    let left = a.as_bytes();
    let right = b.as_bytes();
    proof {
        axiom_spec_len(left);
        axiom_spec_len(right);
        encode_utf8_decode_utf8(a@);
        encode_utf8_decode_utf8(b@);
    }
    if left.len() != right.len() {
        return false;
    }
    let mut i: usize = 0;
    while i < left.len()
        invariant
            i <= left@.len(),
            left@ == a.spec_bytes(),
            right@ == b.spec_bytes(),
            left@.len() == right@.len(),
            forall|j: int| 0 <= j < i ==> left@[j] == right@[j],
        decreases left@.len() - i,
    {
        if left[i] != right[i] {
            return false;
        }
        i += 1;
    }
    assert(left@ =~= right@);
    true
}

/// Whether `rule` names one of the ways to rename.
pub open spec fn is_rename_rule(rule: Seq<char>) -> bool {
    ||| rule == "snake_case"@
    ||| rule == "lowercase"@
    ||| rule == "PascalCase"@
    ||| rule == "camalCase"@
}

/// The name that `origin` gets under the rule: itself where there is no
/// rule.
pub open spec fn renamed(origin: Seq<char>, rule: Option<Seq<char>>) -> Seq<char> {
    match rule {
        None => origin,
        Some(rule) => if rule == "snake_case"@ {
            snake_case(origin)
        } else if rule == "lowercase"@ {
            lower_case(origin)
        } else if rule == "PascalCase"@ {
            upper_camel_case(origin)
        } else {
            lower_camel_case(origin)
        },
    }
}

/// What an optional text holds.
pub open spec fn text_of(text: Option<&str>) -> Option<Seq<char>> {
    match text {
        None => None,
        Some(text) => Some(text@),
    }
}

/// Whether `rule` names one of the ways to rename.
pub fn supports(rule: &str) -> (supported: bool)
    ensures
        supported == is_rename_rule(rule@),
{
    same_text(rule, "snake_case") || same_text(rule, "lowercase") || same_text(rule, "PascalCase")
        || same_text(rule, "camalCase")
}

/// Renames `origin` by the rule, and leaves it as it is where there is
/// no rule.
pub fn case_conv(origin: &str, rename_rule: Option<&str>) -> (converted: String)
    requires
        rename_rule matches Some(rule) ==> is_rename_rule(rule@),
    ensures
        converted@ == renamed(origin@, text_of(rename_rule)),
{
    match rename_rule {
        None => origin.to_owned(),
        Some(rule) => {
            if same_text(rule, "snake_case") {
                to_snek_case(origin)
            } else if same_text(rule, "lowercase") {
                to_lowercase(origin)
            } else if same_text(rule, "PascalCase") {
                to_pascal_case(origin)
            } else {
                to_lower_camel_case(origin)
            }
        },
    }
}

/// The name of the API method that a kind of request stands for: the name
/// of the kind in lower camel case.
pub fn method_name_of(request: &str) -> (name: String)
    ensures
        name@ == lower_camel_case(request@),
{
    to_lower_camel_case(request)
}

/// The name under which a command is given in a message: a slash, and
/// then the name that the command was given in place of its own, or its
/// own name under the rule.
pub fn command_name(variant: &str, rename: Option<&str>, rename_rule: Option<&str>) -> (name:
    String)
    requires
        rename is None ==> (rename_rule matches Some(rule) ==> is_rename_rule(rule@)),
    ensures
        name@ == "/"@ + match rename {
            Some(rename) => rename@,
            None => renamed(variant@, text_of(rename_rule)),
        },
{
    match rename {
        Some(rename) => "/".to_owned().concat(rename),
        None => "/".to_owned().concat(case_conv(variant, rename_rule).as_str()),
    }
}

/// The name of the bot that a set of commands is for: the name that was
/// given, or the name of the set under the rule.
pub fn bot_name(commands: &str, given: Option<String>, rename_rule: Option<&str>) -> (name: String)
    requires
        given is None ==> (rename_rule matches Some(rule) ==> is_rename_rule(rule@)),
    ensures
        match given {
            Some(given) => name == given,
            None => name@ == renamed(commands@, text_of(rename_rule)),
        },
{
    match given {
        Some(given) => given,
        None => case_conv(commands, rename_rule),
    }
}

} // verus!
