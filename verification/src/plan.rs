//! The plan of a run: all that a configuration asks for, in the order in
//! which it is to be carried out, with every path resolved.
//!
//! Documents are taken in the order of the text, and within a document the
//! sections in the fixed order symbolic link, hard link, directory link. A
//! malformed section stands in the plan as its fault, so that it can be
//! reported where its turn comes, and keeps no other section out.

use vstd::prelude::*;
use crate::alias::{Alias, AliasIndex};
use crate::document::{loaded_documents, parse_config, ConfigError, Node};
use crate::request::{
    collect_requests,
    document_requests,
    outcome_views,
    LinkRequestView,
    SectionShapeError,
};
use crate::resolve::{
    resolve_request,
    resolved_request,
    ResolvedLinkRequest,
    ResolvedLinkRequestView,
};

verus! {

/// One step of a plan as a mathematical value.
pub open spec fn step_view(step: Result<ResolvedLinkRequest, SectionShapeError>) -> Result<
    ResolvedLinkRequestView,
    SectionShapeError,
> {
    match step {
        Ok(request) => Ok(request@),
        Err(error) => Err(error),
    }
}

/// A plan as a mathematical value.
pub open spec fn plan_view(plan: Seq<Result<ResolvedLinkRequest, SectionShapeError>>) -> Seq<
    Result<ResolvedLinkRequestView, SectionShapeError>,
> {
    plan.map_values(|step: Result<ResolvedLinkRequest, SectionShapeError>| step_view(step))
}

/// The step that the outcome of a section makes: its request with both
/// paths resolved, or its fault as it is.
pub open spec fn planned_step(
    outcome: Result<LinkRequestView, SectionShapeError>,
    table: Seq<Alias>,
) -> Result<ResolvedLinkRequestView, SectionShapeError> {
    match outcome {
        Ok(request) => Ok(resolved_request(request, table)),
        Err(error) => Err(error),
    }
}

/// The steps that the outcomes of some sections make, in their order.
pub open spec fn planned_steps(
    outcomes: Seq<Result<LinkRequestView, SectionShapeError>>,
    table: Seq<Alias>,
) -> Seq<Result<ResolvedLinkRequestView, SectionShapeError>> {
    outcomes.map_values(
        |outcome: Result<LinkRequestView, SectionShapeError>| planned_step(outcome, table),
    )
}

/// The steps of one document.
pub open spec fn document_plan(doc: Node, table: Seq<Alias>) -> Seq<
    Result<ResolvedLinkRequestView, SectionShapeError>,
> {
    planned_steps(document_requests(doc), table)
}

/// The steps of all documents of a text, document after document.
pub open spec fn stream_plan(docs: Seq<Node>, table: Seq<Alias>) -> Seq<
    Result<ResolvedLinkRequestView, SectionShapeError>,
>
    decreases docs.len(),
{
    if docs.len() == 0 {
        Seq::empty()
    } else {
        stream_plan(docs.drop_last(), table) + document_plan(docs.last(), table)
    }
}

/// Appends the steps of one document to a plan.
pub fn plan_document(
    doc: &Node,
    index: &AliasIndex,
    plan: &mut Vec<Result<ResolvedLinkRequest, SectionShapeError>>,
)
    ensures
        plan_view(final(plan)@) == plan_view(old(plan)@) + document_plan(*doc, index@),
{
    let found = collect_requests(doc);
    let ghost outcomes = outcome_views(found@);
    let ghost table = index@;
    for i in 0..found.len()
        invariant
            outcomes == outcome_views(found@),
            table == index@,
            plan_view(plan@) == plan_view(old(plan)@) + planned_steps(
                outcomes.take(i as int),
                table,
            ),
    {
        let ghost before = plan@;
        let step = match &found[i] {
            Ok(request) => Ok(resolve_request(request, index)),
            Err(error) => Err(*error),
        };
        plan.push(step);
        proof {
            assert(plan_view(plan@) =~= plan_view(before).push(step_view(step)));
            assert(planned_steps(outcomes.take(i + 1), table) =~= planned_steps(
                outcomes.take(i as int),
                table,
            ).push(planned_step(outcomes[i as int], table)));
        }
    }
}

/// Makes the plan of the documents of a text.
pub fn plan_documents(docs: &Vec<Node>, index: &AliasIndex) -> (plan: Vec<
    Result<ResolvedLinkRequest, SectionShapeError>,
>)
    ensures
        plan_view(plan@) == stream_plan(docs@, index@),
        plan@.len() == stream_plan(docs@, index@).len(),
        forall|i: int|
            0 <= i < plan@.len() ==> step_view(#[trigger] plan@[i]) == stream_plan(
                docs@,
                index@,
            )[i],
{
    let mut plan: Vec<Result<ResolvedLinkRequest, SectionShapeError>> = Vec::new();
    for i in 0..docs.len()
        invariant
            plan_view(plan@) == stream_plan(docs@.take(i as int), index@),
    {
        assert(docs@.take(i + 1).drop_last() =~= docs@.take(i as int));
        plan_document(&docs[i], index, &mut plan);
    }
    assert(docs@.take(docs.len() as int) =~= docs@);
    plan
}

/// Parses a configuration text and makes its plan. A text that is no
/// document at all gives a parse error and no step.
pub fn plan_links(text: &str, index: &AliasIndex) -> (plan: Result<
    Vec<Result<ResolvedLinkRequest, SectionShapeError>>,
    ConfigError,
>)
    ensures
        match loaded_documents(text@) {
            Ok(docs) => plan is Ok && plan_view(plan->Ok_0@) == stream_plan(docs@, index@),
            Err(_) => plan is Err && plan->Err_0 is Parse,
        },
{
    match parse_config(text) {
        Ok(docs) => Ok(plan_documents(&docs, index)),
        Err(error) => Err(error),
    }
}

/// Makes the plan of a run from what reading the configuration file gave:
/// its text, or the cause for which it could not be read.
pub fn plan_run(contents: Result<String, String>, index: &AliasIndex) -> (plan: Result<
    Vec<Result<ResolvedLinkRequest, SectionShapeError>>,
    ConfigError,
>)
    ensures
        match contents {
            Err(cause) => plan == Err::<
                Vec<Result<ResolvedLinkRequest, SectionShapeError>>,
                ConfigError,
            >(ConfigError::Read(cause)),
            Ok(text) => match loaded_documents(text@) {
                Ok(docs) => plan is Ok && plan_view(plan->Ok_0@) == stream_plan(docs@, index@),
                Err(_) => plan is Err && plan->Err_0 is Parse,
            },
        },
{
    match contents {
        Ok(text) => plan_links(text.as_str(), index),
        Err(cause) => Err(ConfigError::Read(cause)),
    }
}

} // verus!
