//! The instructions that a session chat opens with.
use crate::text::{contains_string, join_strings, joined, views};
use vstd::prelude::*;

verus! {

/// What comes before the project labels.
pub const OPENING: &'static str = r#"You are an expert software engineer who is going to help the user with their questions.
Your job is to answer the user query which is a followup to the conversation we have had.

Provide only as much information and code as is necessary to answer the query, but be concise. Keep number of quoted lines to a minimum when possible.
When referring to code, you must provide an example in a code block.

"#;

/// What introduces the project labels.
pub const LABELS_INTRO: &'static str = r#"- You are given the following project labels which are associated with the codebase:
"#;

/// What follows the project labels.
pub const LABELS_END: &'static str = "\n";

/// What stands between two project labels.
pub const LABEL_SEPARATOR: &'static str = ",";

pub const RULES_UP_TO_LINES_LINK: &'static str = r#"

Respect these rules at all times:
- When asked for your name, you must respond with "Aide".
- Follow the user's requirements carefully & to the letter.
- Minimize any other prose.
- Unless directed otherwise, the user is expecting for you to edit their selected code.
- Link ALL paths AND code symbols (functions, methods, fields, classes, structs, types, variables, values, definitions, directories, etc) by embedding them in a markdown link, with the URL corresponding to the full path, and the anchor following the form `LX` or `LX-LY`, where X represents the starting line number, and Y represents the ending line number, if the reference is more than one line.
    - For example, to refer to lines 50 to 78 in a sentence, respond with something like: The compiler is initialized in [`src/foo.rs`]("#;

pub const UP_TO_FUNCTION_LINK: &'static str = r#"src/foo.rs#L50-L78)
    - For example, to refer to the `new` function on a struct, respond with something like: The [`new`]("#;

pub const UP_TO_FIELD_LINK: &'static str = r#"src/bar.rs#L26-53) function initializes the struct
    - For example, to refer to the `foo` field on a struct and link a single line, respond with something like: The [`foo`]("#;

pub const UP_TO_SINGLE_LINE_LINK: &'static str = r#"src/foo.rs#L138) field contains foos. Do not respond with something like [`foo`]("#;

pub const UP_TO_FOLDER_LINK: &'static str = r#"src/foo.rs#L138-L138)
    - For example, to refer to a folder `foo`, respond with something like: The files can be found in [`foo`]("#;

pub const UP_TO_BARE_SYMBOL_LINK: &'static str = r#"path/to/foo/) folder
- Do not print out line numbers directly, only in a link
- Do not refer to more lines than necessary when creating a line range, be precise
- Do NOT output bare symbols. ALL symbols must include a link
    - E.g. Do not simply write `Bar`, write [`Bar`]("#;

pub const UP_TO_SENTENCE_LINK: &'static str = r#"src/bar.rs#L100-L105).
    - E.g. Do not simply write "Foos are functions that create `Foo` values out of thin air." Instead, write: "Foos are functions that create [`Foo`]("#;

pub const UP_TO_LINKED_FIELD: &'static str = r#"src/foo.rs#L80-L120) values out of thin air."
- Link all fields
    - E.g. Do not simply write: "It has one main field: `foo`." Instead, write: "It has one main field: [`foo`]("#;

pub const UP_TO_SECOND_SYMBOL_LINK: &'static str = r#"src/foo.rs#L193)."
- Do NOT link external urls not present in the context, do NOT link urls from the internet
- Link all symbols, even when there are multiple in one sentence
    - E.g. Do not simply write: "Bars are [`Foo`]( that return a list filled with `Bar` variants." Instead, write: "Bars are functions that return a list filled with [`Bar`]("#;

pub const REMAINING_RULES: &'static str = r#"src/bar.rs#L38-L57) variants."
- Code blocks MUST be displayed to the user using markdown
- Code blocks MUST be displayed to the user using markdown and must NEVER include the line numbers
- If you are going to not edit sections of the code, leave "// rest of code .." as the placeholder string.
- Do NOT write the line number in the codeblock
    - E.g. Do not write:
    ```rust
    1. // rest of code ..
    2. // rest of code ..
    ```
    Here the codeblock has line numbers 1 and 2, do not write the line numbers in the codeblock"#;

/// The rules, cut at each place where the location of the repository goes.
pub open spec fn rule_pieces() -> Seq<Seq<char>> {
    seq![
        RULES_UP_TO_LINES_LINK@,
        UP_TO_FUNCTION_LINK@,
        UP_TO_FIELD_LINK@,
        UP_TO_SINGLE_LINE_LINK@,
        UP_TO_FOLDER_LINK@,
        UP_TO_BARE_SYMBOL_LINK@,
        UP_TO_SENTENCE_LINK@,
        UP_TO_LINKED_FIELD@,
        UP_TO_SECOND_SYMBOL_LINK@,
        REMAINING_RULES@,
    ]
}

/// A label, said twice.
pub open spec fn twice() -> spec_fn(Seq<char>) -> Seq<Seq<char>> {
    |label: Seq<char>| seq![label, label]
}

/// The labels as the model is told them: each of them twice in a row, in the order in
/// which they are first given, however often they are given.
pub open spec fn told_labels(labels: Seq<Seq<char>>) -> Seq<Seq<char>> {
    labels.remove_duplicates(seq![]).flat_map(twice())
}

/// What the model is told of the project labels.
pub open spec fn labels_text(labels: Seq<Seq<char>>) -> Seq<char> {
    LABELS_INTRO@ + joined(told_labels(labels), LABEL_SEPARATOR@) + LABELS_END@
}

/// The instructions for a project with these labels, at this location.
pub open spec fn system_text(labels: Seq<Seq<char>>, location: Seq<char>) -> Seq<char> {
    OPENING@ + labels_text(labels) + joined(rule_pieces(), location)
}

/// A label is among those said twice just where it is among the labels.
proof fn lemma_twice_contains(labels: Seq<Seq<char>>, label: Seq<char>)
    ensures
        labels.flat_map(twice()).contains(label) <==> labels.contains(label),
    decreases labels.len(),
{
    if labels.len() > 0 {
        let rest = labels.drop_last();
        let last = labels.last();
        lemma_twice_contains(rest, label);
        rest.lemma_flat_map_push(twice(), last);
        assert(rest.push(last) =~= labels);
        let said = rest.flat_map(twice());
        let whole = labels.flat_map(twice());
        assert(whole =~= said + seq![last, last]);
        if whole.contains(label) {
            let i = choose|i: int| 0 <= i < whole.len() && whole[i] == label;
            if i < said.len() {
                assert(said[i] == label);
                let k = choose|k: int| 0 <= k < rest.len() && rest[k] == label;
                assert(labels[k] == label);
            } else {
                assert(labels[labels.len() - 1] == label);
            }
        }
        if labels.contains(label) {
            let k = choose|k: int| 0 <= k < labels.len() && labels[k] == label;
            if k < rest.len() {
                assert(rest[k] == label);
                let i = choose|i: int| 0 <= i < said.len() && said[i] == label;
                assert(whole[i] == label);
            } else {
                assert(whole[said.len() as int] == label);
            }
        }
    } else {
        assert(labels.flat_map(twice()) =~= seq![]);
    }
}

/// The labels as the model is told them.
pub fn tell_labels(labels: &Vec<String>) -> (told: Vec<String>)
    ensures
        views(told@) == told_labels(views(labels@)),
{
    let mut told: Vec<String> = Vec::new();
    let ghost all = views(labels@);
    assert(all.take(0) =~= seq![]);
    assert(views(told@) =~= told_labels(all.take(0)));
    for i in 0..labels.len()
        invariant
            all == views(labels@),
            views(told@) == told_labels(all.take(i as int)),
    {
        let ghost before = told@;
        let ghost given = all.take(i as int);
        let ghost label = all[i as int];
        proof {
            assert(label == labels@[i as int]@);
            let distinct = given.remove_duplicates(seq![]);
            lemma_twice_contains(distinct, label);
            given.lemma_remove_duplicates_properties(seq![]);
            assert(given + seq![] =~= given);
            given.lemma_remove_duplicates_append(label, seq![]);
            assert(all.take(i + 1) =~= given + seq![label]);
            distinct.lemma_flat_map_push(twice(), label);
            assert(distinct + seq![label] =~= distinct.push(label));
        }
        if !contains_string(&told, &labels[i]) {
            told.push(labels[i].clone());
            told.push(labels[i].clone());
            assert(views(told@) =~= views(before) + seq![label, label]);
        }
    }
    assert(all.take(labels@.len() as int) =~= all);
    told
}

/// The instructions for a project with these labels, at this location.
pub fn system_prompt(labels: &Vec<String>, location: &str) -> (prompt: String)
    ensures
        prompt@ == system_text(views(labels@), location@),
{
    let told: Vec<String> = tell_labels(labels);
    let pieces: Vec<String> =
        vec![
        RULES_UP_TO_LINES_LINK.to_owned(),
        UP_TO_FUNCTION_LINK.to_owned(),
        UP_TO_FIELD_LINK.to_owned(),
        UP_TO_SINGLE_LINE_LINK.to_owned(),
        UP_TO_FOLDER_LINK.to_owned(),
        UP_TO_BARE_SYMBOL_LINK.to_owned(),
        UP_TO_SENTENCE_LINK.to_owned(),
        UP_TO_LINKED_FIELD.to_owned(),
        UP_TO_SECOND_SYMBOL_LINK.to_owned(),
        REMAINING_RULES.to_owned(),
    ];
    assert(views(pieces@) =~= rule_pieces());
    let mut prompt: String = OPENING.to_owned();
    prompt.append(LABELS_INTRO);
    prompt.append(join_strings(&told, LABEL_SEPARATOR).as_str());
    prompt.append(LABELS_END);
    prompt.append(join_strings(&pieces, location).as_str());
    assert(prompt@ =~= system_text(views(labels@), location@));
    prompt
}

} // verus!
