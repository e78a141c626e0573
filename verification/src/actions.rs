//! Outbound commands: the action builder and the JSON wire shape.
//!
//! `build` turns a requested action kind plus the caller's context into an
//! `Action` value; `action_json` lays that value out as the tagged JSON
//! object the controlled system expects, with optional fields omitted when
//! absent (never serialized as null or an empty string).

use vstd::prelude::*;
use crate::authorization::ActionType;
use crate::text::{append_str_chars, chars_string};

verus! {

/// The operating mode a `SelectMode` command requests.
#[derive(Debug, Clone, Copy, PartialEq, Eq, Structural)]
pub enum ModeType {
    Automatic,
    FrontendAccess,
}

/// An outbound command: the action kind with its kind-specific payload.
#[derive(Debug)]
pub enum Action {
    SelectMode { mode: ModeType },
    PrepareRecipe { recipe_id: Option<String> },
    UnprepareRecipe { recipe_id: Option<String> },
    StartSingleJob { recipe_id: Option<String>, parameters: Option<Vec<String>> },
    StartContinuous { recipe_id: Option<String>, parameters: Option<Vec<String>> },
    Reset,
    Halt,
    Stop,
    Abort,
}

/// What the caller knows when an action is requested: an identifier named
/// explicitly with the request, the currently prepared recipe as tracked by
/// the observer layer, and start parameters already gathered from the input
/// fields (all of them or none, see `gather_start_parameters`).
#[derive(Debug)]
pub struct ActionContext {
    pub explicit_recipe_id: Option<String>,
    pub prepared_recipe_id: Option<String>,
    pub start_parameters: Option<Vec<String>>,
}

/// The recipe identifier an action carries: the explicit one if named,
/// otherwise the currently prepared one, otherwise none.
pub open spec fn spec_effective_recipe(ctx: ActionContext) -> Option<String> {
    if ctx.explicit_recipe_id is Some {
        ctx.explicit_recipe_id
    } else {
        ctx.prepared_recipe_id
    }
}

/// The action `build` produces for a kind and a context.
pub open spec fn spec_build(kind: ActionType, ctx: ActionContext) -> Action {
    match kind {
        ActionType::SelectModeAutomatic => Action::SelectMode { mode: ModeType::Automatic },
        ActionType::PrepareRecipe => Action::PrepareRecipe {
            recipe_id: spec_effective_recipe(ctx),
        },
        ActionType::UnprepareRecipe => Action::UnprepareRecipe {
            recipe_id: spec_effective_recipe(ctx),
        },
        ActionType::StartSingleJob => Action::StartSingleJob {
            recipe_id: spec_effective_recipe(ctx),
            parameters: ctx.start_parameters,
        },
        ActionType::StartContinuous => Action::StartContinuous {
            recipe_id: spec_effective_recipe(ctx),
            parameters: ctx.start_parameters,
        },
        ActionType::Reset => Action::Reset,
        ActionType::Halt => Action::Halt,
        ActionType::Stop => Action::Stop,
        ActionType::Abort => Action::Abort,
    }
}

/// Builds the outbound action for a requested kind. A kind that takes a
/// recipe identifier uses the explicitly supplied one, falls back to the
/// currently prepared recipe, and omits the field when neither is at hand;
/// the start kinds carry the gathered parameters as given.
pub fn build(kind: ActionType, ctx: ActionContext) -> (a: Action)
    ensures
        a == spec_build(kind, ctx),
{
    let ghost gctx = ctx;
    let ActionContext { explicit_recipe_id, prepared_recipe_id, start_parameters } = ctx;
    let recipe_id = match explicit_recipe_id {
        Some(id) => Some(id),
        None => prepared_recipe_id,
    };
    proof {
        assert(recipe_id == spec_effective_recipe(gctx));
    }
    match kind {
        ActionType::SelectModeAutomatic => Action::SelectMode { mode: ModeType::Automatic },
        ActionType::PrepareRecipe => Action::PrepareRecipe { recipe_id },
        ActionType::UnprepareRecipe => Action::UnprepareRecipe { recipe_id },
        ActionType::StartSingleJob => Action::StartSingleJob {
            recipe_id,
            parameters: start_parameters,
        },
        ActionType::StartContinuous => Action::StartContinuous {
            recipe_id,
            parameters: start_parameters,
        },
        ActionType::Reset => Action::Reset,
        ActionType::Halt => Action::Halt,
        ActionType::Stop => Action::Stop,
        ActionType::Abort => Action::Abort,
    }
}

/// One start-parameter input field as the interface layer reports it:
/// whether it stands editable and what it holds.
#[derive(Debug)]
pub struct InputField {
    pub editable: bool,
    pub text: String,
}

/// Gathers the free-form start parameters: the texts of all fields, in
/// order, but only when every field is editable — otherwise nothing at
/// all. All-or-nothing, never a partial list.
pub fn gather_start_parameters(fields: &Vec<InputField>) -> (r: Option<Vec<String>>)
    ensures
        match r {
            Option::Some(texts) => (forall|i: int|
                0 <= i < fields@.len() ==> fields@[i].editable) && texts@.len() == fields@.len()
                && (forall|i: int| 0 <= i < fields@.len() ==> texts@[i]@ == fields@[i].text@),
            Option::None => exists|i: int| 0 <= i < fields@.len() && !fields@[i].editable,
        },
{
    let n = fields.len();
    let mut texts: Vec<String> = Vec::new();
    let mut i: usize = 0;
    while i < n
        invariant
            i <= n,
            n == fields@.len(),
            texts@.len() == i,
            forall|j: int| 0 <= j < i ==> fields@[j].editable,
            forall|j: int| 0 <= j < i ==> texts@[j]@ == fields@[j].text@,
        decreases n - i,
    {
        if !fields[i].editable {
            return None;
        }
        texts.push(fields[i].text.clone());
        i = i + 1;
    }
    Some(texts)
}

/// The recipe the observer layer counts as prepared: the first identifier
/// of the reported list, or none when the list is empty.
pub fn first_prepared_id(ids: &Vec<String>) -> (r: Option<String>)
    ensures
        match r {
            Option::Some(id) => ids@.len() > 0 && id@ == ids@[0]@,
            Option::None => ids@.len() == 0,
        },
{
    if ids.len() == 0 {
        None
    } else {
        Some(ids[0].clone())
    }
}

/// The lowercase hexadecimal digit for a value below sixteen.
pub open spec fn spec_hex_digit(d: u32) -> char {
    if d == 0 {
        '0'
    } else if d == 1 {
        '1'
    } else if d == 2 {
        '2'
    } else if d == 3 {
        '3'
    } else if d == 4 {
        '4'
    } else if d == 5 {
        '5'
    } else if d == 6 {
        '6'
    } else if d == 7 {
        '7'
    } else if d == 8 {
        '8'
    } else if d == 9 {
        '9'
    } else if d == 10 {
        'a'
    } else if d == 11 {
        'b'
    } else if d == 12 {
        'c'
    } else if d == 13 {
        'd'
    } else if d == 14 {
        'e'
    } else {
        'f'
    }
}

fn hex_digit(d: u32) -> (c: char)
    requires
        d < 16,
    ensures
        c == spec_hex_digit(d),
{
    if d == 0 {
        '0'
    } else if d == 1 {
        '1'
    } else if d == 2 {
        '2'
    } else if d == 3 {
        '3'
    } else if d == 4 {
        '4'
    } else if d == 5 {
        '5'
    } else if d == 6 {
        '6'
    } else if d == 7 {
        '7'
    } else if d == 8 {
        '8'
    } else if d == 9 {
        '9'
    } else if d == 10 {
        'a'
    } else if d == 11 {
        'b'
    } else if d == 12 {
        'c'
    } else if d == 13 {
        'd'
    } else if d == 14 {
        'e'
    } else {
        'f'
    }
}

/// How one character appears inside a JSON string literal: quote and
/// backslash get a backslash escape, the named control characters their
/// short escapes, other control characters a `\u00..` escape, and
/// everything else stands as itself.
pub open spec fn json_escape_char(c: char) -> Seq<char> {
    if c == '"' {
        seq!['\\', '"']
    } else if c == '\\' {
        seq!['\\', '\\']
    } else if c == '\u{8}' {
        seq!['\\', 'b']
    } else if c == '\u{c}' {
        seq!['\\', 'f']
    } else if c == '\n' {
        seq!['\\', 'n']
    } else if c == '\r' {
        seq!['\\', 'r']
    } else if c == '\t' {
        seq!['\\', 't']
    } else if (c as u32) < 0x20 {
        seq!['\\', 'u', '0', '0', spec_hex_digit((c as u32) / 16), spec_hex_digit((c as u32) % 16)]
    } else {
        seq![c]
    }
}

/// A character sequence escaped for use inside a JSON string literal.
pub open spec fn json_escape(s: Seq<char>) -> Seq<char>
    decreases s.len(),
{
    if s.len() == 0 {
        Seq::<char>::empty()
    } else {
        json_escape_char(s[0]) + json_escape(s.drop_first())
    }
}

proof fn lemma_json_escape_push(s: Seq<char>, c: char)
    ensures
        json_escape(s.push(c)) == json_escape(s) + json_escape_char(c),
    decreases s.len(),
{
    if s.len() == 0 {
        assert(s.push(c).len() == 1);
        assert(s.push(c)[0] == c);
        assert(s.push(c).drop_first() =~= Seq::<char>::empty());
        assert(json_escape(s.push(c)) == json_escape_char(c) + json_escape(
            Seq::<char>::empty(),
        ));
        assert(json_escape(Seq::<char>::empty()) =~= Seq::<char>::empty());
        assert(json_escape(s) =~= Seq::<char>::empty());
        assert(json_escape(s.push(c)) =~= json_escape(s) + json_escape_char(c));
    } else {
        lemma_json_escape_push(s.drop_first(), c);
        assert(s.push(c).len() == s.len() + 1);
        assert(s.push(c)[0] == s[0]);
        assert(s.push(c).drop_first() =~= s.drop_first().push(c));
        assert(json_escape(s.push(c)) == json_escape_char(s[0]) + json_escape(
            s.drop_first().push(c),
        ));
        assert(json_escape(s) == json_escape_char(s[0]) + json_escape(s.drop_first()));
        assert(json_escape(s.push(c)) =~= json_escape(s) + json_escape_char(c));
    }
}

/// A JSON string literal: the escaped characters between double quotes.
pub open spec fn json_string(s: Seq<char>) -> Seq<char> {
    seq!['"'] + json_escape(s) + seq!['"']
}

/// Appends the JSON string literal for `text` to the output.
fn append_json_string(out: &mut Vec<char>, text: &str)
    ensures
        final(out)@ == old(out)@ + json_string(text@),
{
    out.push('"');
    let chars = crate::text::str_chars(text);
    let n = chars.len();
    let mut i: usize = 0;
    proof {
        assert(json_escape(chars@.take(0)) =~= Seq::<char>::empty());
        assert(out@ =~= old(out)@ + seq!['"'] + json_escape(chars@.take(0)));
    }
    while i < n
        invariant
            i <= n,
            n == chars@.len(),
            chars@ == text@,
            out@ == old(out)@ + seq!['"'] + json_escape(chars@.take(i as int)),
        decreases n - i,
    {
        let ghost prefix = chars@.take(i as int);
        let c = chars[i];
        if c == '"' {
            out.push('\\');
            out.push('"');
        } else if c == '\\' {
            out.push('\\');
            out.push('\\');
        } else if c == '\u{8}' {
            out.push('\\');
            out.push('b');
        } else if c == '\u{c}' {
            out.push('\\');
            out.push('f');
        } else if c == '\n' {
            out.push('\\');
            out.push('n');
        } else if c == '\r' {
            out.push('\\');
            out.push('r');
        } else if c == '\t' {
            out.push('\\');
            out.push('t');
        } else if (c as u32) < 0x20 {
            out.push('\\');
            out.push('u');
            out.push('0');
            out.push('0');
            out.push(hex_digit((c as u32) / 16));
            out.push(hex_digit((c as u32) % 16));
        } else {
            out.push(c);
        }
        i = i + 1;
        proof {
            lemma_json_escape_push(prefix, c);
            assert(chars@.take(i as int) =~= prefix.push(c));
            assert(out@ =~= old(out)@ + seq!['"'] + json_escape(chars@.take(i as int)));
        }
    }
    out.push('"');
    proof {
        assert(chars@.take(n as int) =~= text@);
        assert(out@ =~= old(out)@ + json_string(text@));
    }
}

/// The views of a vector of strings.
pub open spec fn string_views(ss: Seq<String>) -> Seq<Seq<char>> {
    ss.map_values(|s: String| s@)
}

/// The comma-separated JSON string literals for a list of items.
pub open spec fn json_string_list(items: Seq<Seq<char>>) -> Seq<char>
    decreases items.len(),
{
    if items.len() == 0 {
        Seq::<char>::empty()
    } else if items.len() == 1 {
        json_string(items[0])
    } else {
        json_string(items[0]) + seq![','] + json_string_list(items.drop_first())
    }
}

/// A JSON array of string literals.
pub open spec fn json_string_array(items: Seq<Seq<char>>) -> Seq<char> {
    seq!['['] + json_string_list(items) + seq![']']
}

proof fn lemma_json_string_list_push(items: Seq<Seq<char>>, x: Seq<char>)
    requires
        items.len() >= 1,
    ensures
        json_string_list(items.push(x)) == json_string_list(items) + seq![','] + json_string(x),
    decreases items.len(),
{
    if items.len() == 1 {
        assert(items.push(x)[0] == items[0]);
        assert(items.push(x).drop_first() =~= seq![x]);
        assert(json_string_list(seq![x]) == json_string(x));
        assert(json_string_list(items.push(x)) =~= json_string_list(items) + seq![',']
            + json_string(x));
    } else {
        lemma_json_string_list_push(items.drop_first(), x);
        assert(items.push(x)[0] == items[0]);
        assert(items.push(x).drop_first() =~= items.drop_first().push(x));
        assert(json_string_list(items.push(x)) =~= json_string_list(items) + seq![',']
            + json_string(x));
    }
}

/// Appends the JSON array of string literals for `items` to the output.
fn append_json_string_array(out: &mut Vec<char>, items: &Vec<String>)
    ensures
        final(out)@ == old(out)@ + json_string_array(string_views(items@)),
{
    out.push('[');
    let n = items.len();
    let mut i: usize = 0;
    proof {
        assert(json_string_list(string_views(items@).take(0)) =~= Seq::<char>::empty());
        assert(out@ =~= old(out)@ + seq!['['] + json_string_list(string_views(items@).take(0)));
    }
    while i < n
        invariant
            i <= n,
            n == items@.len(),
            out@ == old(out)@ + seq!['['] + json_string_list(string_views(items@).take(i as int)),
        decreases n - i,
    {
        let ghost sofar = string_views(items@).take(i as int);
        if i > 0 {
            out.push(',');
        }
        append_json_string(out, items[i].as_str());
        proof {
            assert(string_views(items@)[i as int] == items@[i as int]@);
            assert(string_views(items@).take(i + 1) =~= sofar.push(items@[i as int]@));
            if i == 0 {
                assert(sofar.len() == 0);
                assert(json_string_list(sofar.push(items@[0]@)) == json_string(items@[0]@));
            } else {
                lemma_json_string_list_push(sofar, items@[i as int]@);
            }
            assert(out@ =~= old(out)@ + seq!['['] + json_string_list(
                string_views(items@).take(i + 1),
            ));
        }
        i = i + 1;
    }
    out.push(']');
    proof {
        assert(string_views(items@).take(n as int) =~= string_views(items@));
        assert(out@ =~= old(out)@ + json_string_array(string_views(items@)));
    }
}

/// The JSON value a mode serializes to: the variant name as a string.
pub open spec fn json_mode(mode: ModeType) -> Seq<char> {
    match mode {
        ModeType::Automatic => "\"Automatic\""@,
        ModeType::FrontendAccess => "\"FrontendAccess\""@,
    }
}

/// The optional `recipeId` member: absent when no identifier is carried.
pub open spec fn json_opt_recipe(r: Option<String>) -> Seq<char> {
    match r {
        Option::None => Seq::<char>::empty(),
        Option::Some(id) => ",\"recipeId\":"@ + json_string(id@),
    }
}

/// The optional `parameters` member: absent when no list was gathered.
pub open spec fn json_opt_params(p: Option<Vec<String>>) -> Seq<char> {
    match p {
        Option::None => Seq::<char>::empty(),
        Option::Some(ps) => ",\"parameters\":"@ + json_string_array(string_views(ps@)),
    }
}

/// The full JSON object for an action: a tagged object whose `actionType`
/// member holds the kind name, with the kind-specific members after it,
/// omitted members left out entirely.
pub open spec fn spec_action_json(a: Action) -> Seq<char> {
    match a {
        Action::SelectMode { mode } => "{\"actionType\":\"SelectMode\",\"mode\":"@ + json_mode(
            mode,
        ) + "}"@,
        Action::PrepareRecipe { recipe_id } => "{\"actionType\":\"PrepareRecipe\""@
            + json_opt_recipe(recipe_id) + "}"@,
        Action::UnprepareRecipe { recipe_id } => "{\"actionType\":\"UnprepareRecipe\""@
            + json_opt_recipe(recipe_id) + "}"@,
        Action::StartSingleJob { recipe_id, parameters } => "{\"actionType\":\"StartSingleJob\""@
            + json_opt_recipe(recipe_id) + json_opt_params(parameters) + "}"@,
        Action::StartContinuous { recipe_id, parameters } => "{\"actionType\":\"StartContinuous\""@
            + json_opt_recipe(recipe_id) + json_opt_params(parameters) + "}"@,
        Action::Reset => "{\"actionType\":\"Reset\"}"@,
        Action::Halt => "{\"actionType\":\"Halt\"}"@,
        Action::Stop => "{\"actionType\":\"Stop\"}"@,
        Action::Abort => "{\"actionType\":\"Abort\"}"@,
    }
}

fn append_opt_recipe(out: &mut Vec<char>, r: &Option<String>)
    ensures
        final(out)@ == old(out)@ + json_opt_recipe(*r),
{
    match r {
        None => {
            proof {
                assert(out@ =~= old(out)@ + json_opt_recipe(*r));
            }
        },
        Some(id) => {
            append_str_chars(out, ",\"recipeId\":");
            append_json_string(out, id.as_str());
            proof {
                assert(out@ =~= old(out)@ + json_opt_recipe(*r));
            }
        },
    }
}

fn append_opt_params(out: &mut Vec<char>, p: &Option<Vec<String>>)
    ensures
        final(out)@ == old(out)@ + json_opt_params(*p),
{
    match p {
        None => {
            proof {
                assert(out@ =~= old(out)@ + json_opt_params(*p));
            }
        },
        Some(ps) => {
            append_str_chars(out, ",\"parameters\":");
            append_json_string_array(out, ps);
            proof {
                assert(out@ =~= old(out)@ + json_opt_params(*p));
            }
        },
    }
}

/// Lays an action out as its JSON wire shape.
pub fn action_json(a: &Action) -> (r: String)
    ensures
        r@ == spec_action_json(*a),
{
    let mut out: Vec<char> = Vec::new();
    proof {
        assert(out@ =~= Seq::<char>::empty());
    }
    match a {
        Action::SelectMode { mode } => {
            append_str_chars(&mut out, "{\"actionType\":\"SelectMode\",\"mode\":");
            match mode {
                ModeType::Automatic => append_str_chars(&mut out, "\"Automatic\""),
                ModeType::FrontendAccess => append_str_chars(&mut out, "\"FrontendAccess\""),
            }
            append_str_chars(&mut out, "}");
            proof {
                assert(out@ =~= spec_action_json(*a));
            }
        },
        Action::PrepareRecipe { recipe_id } => {
            append_str_chars(&mut out, "{\"actionType\":\"PrepareRecipe\"");
            append_opt_recipe(&mut out, recipe_id);
            append_str_chars(&mut out, "}");
            proof {
                assert(out@ =~= spec_action_json(*a));
            }
        },
        Action::UnprepareRecipe { recipe_id } => {
            append_str_chars(&mut out, "{\"actionType\":\"UnprepareRecipe\"");
            append_opt_recipe(&mut out, recipe_id);
            append_str_chars(&mut out, "}");
            proof {
                assert(out@ =~= spec_action_json(*a));
            }
        },
        Action::StartSingleJob { recipe_id, parameters } => {
            append_str_chars(&mut out, "{\"actionType\":\"StartSingleJob\"");
            append_opt_recipe(&mut out, recipe_id);
            append_opt_params(&mut out, parameters);
            append_str_chars(&mut out, "}");
            proof {
                assert(out@ =~= spec_action_json(*a));
            }
        },
        Action::StartContinuous { recipe_id, parameters } => {
            append_str_chars(&mut out, "{\"actionType\":\"StartContinuous\"");
            append_opt_recipe(&mut out, recipe_id);
            append_opt_params(&mut out, parameters);
            append_str_chars(&mut out, "}");
            proof {
                assert(out@ =~= spec_action_json(*a));
            }
        },
        Action::Reset => {
            append_str_chars(&mut out, "{\"actionType\":\"Reset\"}");
            proof {
                assert(out@ =~= spec_action_json(*a));
            }
        },
        Action::Halt => {
            append_str_chars(&mut out, "{\"actionType\":\"Halt\"}");
            proof {
                assert(out@ =~= spec_action_json(*a));
            }
        },
        Action::Stop => {
            append_str_chars(&mut out, "{\"actionType\":\"Stop\"}");
            proof {
                assert(out@ =~= spec_action_json(*a));
            }
        },
        Action::Abort => {
            append_str_chars(&mut out, "{\"actionType\":\"Abort\"}");
            proof {
                assert(out@ =~= spec_action_json(*a));
            }
        },
    }
    chars_string(&out)
}

} // verus!
