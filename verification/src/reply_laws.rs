//! What the manager makes of each reply, said of the reply itself.
use crate::errors::{SymbolErrorView, ToolErrorView};
use crate::identifier::SnippetView;
use crate::lsp::{DefinitionPathAndRangeView, OpenFileResponseView};
use crate::manager::{defined, defined_snippet, found, implemented, opened};
use crate::outline::{grabbed, OutlineNodeContentView, OutlineNodeView, Position};
use crate::run::{due, StageView, SymbolEventView};
use crate::tool::ToolOutputView;
use vstd::prelude::*;

verus! {

/// Whatever a tool's failure is, it is passed on as it is, whichever answer was due.
pub proof fn law_failures_are_passed_on(error: ToolErrorView)
    ensures
        opened(Err(error)) == Err::<OpenFileResponseView, SymbolErrorView>(
            SymbolErrorView::ToolError(error),
        ),
        found(Err(error)) == Err::<Option<Position>, SymbolErrorView>(
            SymbolErrorView::ToolError(error),
        ),
        defined(Err(error)) == Err::<Seq<DefinitionPathAndRangeView>, SymbolErrorView>(
            SymbolErrorView::ToolError(error),
        ),
        implemented(Err(error)) == Err::<Seq<DefinitionPathAndRangeView>, SymbolErrorView>(
            SymbolErrorView::ToolError(error),
        ),
{
}

/// An answer of the kind that is due is taken whole: the opened file with its path, its
/// contents and its language, the place, and every one of the definitions and of the
/// implementations, in their order.
pub proof fn law_answers_are_taken_whole(
    file: OpenFileResponseView,
    position: Option<Position>,
    locations: Seq<DefinitionPathAndRangeView>,
)
    ensures
        opened(Ok(ToolOutputView::FileOpen(file))) == Ok::<OpenFileResponseView, SymbolErrorView>(
            file,
        ),
        found(Ok(ToolOutputView::GrepSingleFile(position))) == Ok::<
            Option<Position>,
            SymbolErrorView,
        >(position),
        defined(Ok(ToolOutputView::GoToDefinition(locations))) == Ok::<
            Seq<DefinitionPathAndRangeView>,
            SymbolErrorView,
        >(locations),
        implemented(Ok(ToolOutputView::GoToImplementation(locations))) == Ok::<
            Seq<DefinitionPathAndRangeView>,
            SymbolErrorView,
        >(locations),
{
}

/// An answer of another kind than is due is a wrong output, whatever it holds.
pub proof fn law_other_answers_are_wrong(output: ToolOutputView)
    ensures
        output !is FileOpen ==> opened(Ok(output)) == Err::<OpenFileResponseView, SymbolErrorView>(
            SymbolErrorView::WrongToolOutput,
        ),
        output !is GrepSingleFile ==> found(Ok(output)) == Err::<Option<Position>, SymbolErrorView>(
            SymbolErrorView::WrongToolOutput,
        ),
        output !is GoToDefinition ==> defined(Ok(output)) == Err::<
            Seq<DefinitionPathAndRangeView>,
            SymbolErrorView,
        >(SymbolErrorView::WrongToolOutput),
        output !is GoToImplementation ==> implemented(Ok(output)) == Err::<
            Seq<DefinitionPathAndRangeView>,
            SymbolErrorView,
        >(SymbolErrorView::WrongToolOutput),
{
}

/// Looking at one file after another offers what each offers, in turn.
pub proof fn law_offers_add_up(
    nodes: Seq<OutlineNodeView>,
    node: OutlineNodeView,
    name: Seq<char>,
)
    ensures
        grabbed(seq![], name) == Seq::<OutlineNodeContentView>::empty(),
        grabbed(nodes.push(node), name) == grabbed(nodes, name) + grabbed(seq![node], name),
{
    let offer = |node: OutlineNodeView| crate::outline::offered(node, name);
    assert(grabbed(seq![], name) =~= Seq::<OutlineNodeContentView>::empty());
    nodes.lemma_flat_map_push(offer, node);
    seq![node].lemma_flat_map_singleton(offer);
}

/// A top-level symbol that bears the name is offered itself, and nothing else of it is.
/// Of a class of another name all the members that bear the name are offered, in their
/// order, and no others. Anything else offers nothing.
pub proof fn law_what_one_symbol_offers(node: OutlineNodeView, name: Seq<char>)
    ensures
        node.content.name == name ==> grabbed(seq![node], name) == seq![node.content],
        node.content.name != name && !node.class ==> grabbed(seq![node], name).len() == 0,
        node.content.name != name && node.class ==> grabbed(seq![node], name)
            == node.children.filter(|member: OutlineNodeContentView| member.name == name),
{
    let offer = |node: OutlineNodeView| crate::outline::offered(node, name);
    seq![node].lemma_flat_map_singleton(offer);
    assert((|member: OutlineNodeContentView| member.name == name) =~= crate::outline::named(name));
}

/// In the file that defines a symbol, the first offer under its name is taken, with its
/// range, and with the path of that file. Where there is no outline, or no offer, the
/// symbol of that name is not found.
pub proof fn law_definition_takes_the_first_offer(
    symbol_name: Seq<char>,
    fs_file_path: Seq<char>,
    nodes: Seq<OutlineNodeView>,
)
    ensures
        defined_snippet(symbol_name, fs_file_path, None) == Err::<SnippetView, SymbolErrorView>(
            SymbolErrorView::ToolError(ToolErrorView::SymbolNotFound(symbol_name)),
        ),
        grabbed(nodes, symbol_name).len() == 0 ==> defined_snippet(
            symbol_name,
            fs_file_path,
            Some(nodes),
        ) == Err::<SnippetView, SymbolErrorView>(
            SymbolErrorView::ToolError(ToolErrorView::SymbolNotFound(symbol_name)),
        ),
        grabbed(nodes, symbol_name).len() > 0 ==> defined_snippet(
            symbol_name,
            fs_file_path,
            Some(nodes),
        ) == Ok::<SnippetView, SymbolErrorView>(
            SnippetView {
                symbol_name,
                range: grabbed(nodes, symbol_name)[0].range,
                fs_file_path,
            },
        ),
{
    crate::laws::law_offers_bear_the_name(nodes, symbol_name);
}

/// Which events are due: the word that the document is there once it was given, an
/// outline once one was asked for, and a reply otherwise. Of the replies, only an empty
/// list of definitions is never due.
pub proof fn law_what_is_due(stage: StageView, event: SymbolEventView)
    ensures
        due(stage, event) <==> match event {
            SymbolEventView::DocumentAdded => stage is Adding,
            SymbolEventView::SymbolsOutline(_) => stage is Outlining
                || stage is OutliningDefinition,
            SymbolEventView::ToolReply(reply) => {
                &&& stage is Opening || stage is Reopening || stage is Finding || stage is Defining
                    || stage is OpeningDefinition
                &&& !(stage is Defining && reply is Ok && reply->Ok_0 is GoToDefinition
                    && reply->Ok_0->GoToDefinition_0.len() == 0)
            },
        },
{
}

} // verus!
