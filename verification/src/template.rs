//! Templates with `{name}` placeholders, and the shell commands made from
//! them.

use crate::string_map::{bindings_map, StringMap};
use crate::text::{from_utf8_lossy, utf8_lossy};
use new_string_template::template::Template;
use shell_quote::Sh;
use std::collections::HashMap;
use vstd::prelude::*;

verus! {

/// The text that `new_string_template` renders from a template and the
/// variables given, leaving a placeholder as it stands where its variable is
/// not bound.
pub uninterp spec fn rendered(template: Seq<char>, variables: Map<Seq<char>, Seq<char>>) -> Seq<
    char,
>;

/// The bytes that `shell_quote` writes for a value so that `sh` reads them
/// as one word.
pub uninterp spec fn sh_quoted(value: Seq<char>) -> Seq<u8>;

/// Calls `Template::new` and `Template::render_nofail_string` of
/// `new_string_template` with the bindings as a hash map. The rendered text
/// is known by name only; it depends on the template and on what each key is
/// bound to, nothing else.
#[verifier::external_body]
fn render_nofail(template: &str, variables: &StringMap) -> (r: String)
    ensures
        r@ == rendered(template@, variables@),
{
    let values: HashMap<String, &str> = variables.entries.iter().map(
        |(key, value)| (key.clone(), value.as_str()),
    ).collect();
    Template::new(template).render_nofail_string(&values)
}

/// Calls `Sh::quote_vec` of `shell_quote` on a value. The quoted bytes are
/// known by name only.
#[verifier::external_body]
fn quote_for_sh(value: &str) -> (r: Vec<u8>)
    ensures
        r@ == sh_quoted(value@),
{
    Sh::quote_vec(value)
}

/// A value as it is written into a shell command.
pub open spec fn quoted_text(value: Seq<char>) -> Seq<char> {
    utf8_lossy(sh_quoted(value))
}

/// The variables with every value quoted for the shell.
pub open spec fn quoted_variables(variables: Map<Seq<char>, Seq<char>>) -> Map<
    Seq<char>,
    Seq<char>,
> {
    variables.map_values(|value: Seq<char>| quoted_text(value))
}

/// The shell command that a template and its variables stand for: each value
/// is quoted for the shell and put in the place of its placeholder.
pub open spec fn shell_command(template: Seq<char>, variables: Map<Seq<char>, Seq<char>>) -> Seq<
    char,
> {
    rendered(template, quoted_variables(variables))
}

/// Quoting the values of a list of bindings quotes the values of its map.
proof fn lemma_quoted_bindings(
    plain: Seq<(Seq<char>, Seq<char>)>,
    quoted: Seq<(Seq<char>, Seq<char>)>,
)
    requires
        quoted.len() == plain.len(),
        forall|i: int|
            0 <= i < plain.len() ==> (#[trigger] quoted[i]) == (plain[i].0, quoted_text(plain[i].1)),
    ensures
        bindings_map(quoted) == quoted_variables(bindings_map(plain)),
    decreases plain.len(),
{
    if plain.len() == 0 {
        assert(bindings_map(quoted) =~= quoted_variables(bindings_map(plain)));
    } else {
        assert forall|i: int| 0 <= i < plain.drop_last().len() implies (
        #[trigger] quoted.drop_last()[i]) == (
            plain.drop_last()[i].0,
            quoted_text(plain.drop_last()[i].1),
        ) by {
            assert(quoted.drop_last()[i] == quoted[i]);
        }
        lemma_quoted_bindings(plain.drop_last(), quoted.drop_last());
        assert(quoted.last() == quoted[quoted.len() - 1]);
        assert(bindings_map(quoted) =~= quoted_variables(bindings_map(plain)));
    }
}

/// Fills the placeholders of `template` with the variables. A placeholder
/// whose variable is not bound stays as it is written.
pub fn render(template: &str, variables: &StringMap) -> (r: String)
    ensures
        r@ == rendered(template@, variables@),
{
    render_nofail(template, variables)
}

/// The variables with every value quoted for the shell.
pub fn quote_values(variables: &StringMap) -> (r: StringMap)
    ensures
        r@ == quoted_variables(variables@),
{
    let mut quoted = StringMap::new();
    let count = variables.binding_count();
    let mut i: usize = 0;
    while i < count
        invariant
            i <= count,
            count == variables.bindings().len(),
            quoted.bindings().len() == i,
            forall|j: int|
                0 <= j < i ==> (#[trigger] quoted.bindings()[j]) == (
                    variables.bindings()[j].0,
                    quoted_text(variables.bindings()[j].1),
                ),
        decreases count - i,
    {
        let (key, value) = variables.binding(i);
        let bytes = quote_for_sh(value.as_str());
        let text = from_utf8_lossy(bytes.as_slice());
        quoted.insert(key.clone(), text);
        i = i + 1;
    }
    proof {
        variables.lemma_view_is_bindings_map();
        quoted.lemma_view_is_bindings_map();
        lemma_quoted_bindings(variables.bindings(), quoted.bindings());
    }
    quoted
}

/// Makes the shell command of a template: every value is quoted for the
/// shell before it takes the place of its placeholder.
pub fn prepare_shell_command(command_tpl: &str, variables: &StringMap) -> (r: String)
    ensures
        r@ == shell_command(command_tpl@, variables@),
{
    let quoted = quote_values(variables);
    render_nofail(command_tpl, &quoted)
}

} // verus!
