//! Searching through every package manager that is present, and merging what they
//! print into one list of labels in which each package stays attributed to its manager.

use crate::environment::is_present;
use crate::labels::{is_label_safe, label, lemma_split_inverts_label, split_label};
use crate::package_managers::{descriptors, search_command, Descriptor, Installer, PackageManager};
use crate::text::views;
use vstd::prelude::*;
use vstd::string::StringExecFns;

verus! {

/// A search to run: `command`, whose output belongs to `manager`.
pub struct SearchRequest {
    pub manager: String,
    pub command: String,
}

/// The mathematical content of a `SearchRequest`.
pub struct SearchRequestView {
    pub manager: Seq<char>,
    pub command: Seq<char>,
}

impl View for SearchRequest {
    type V = SearchRequestView;

    open spec fn view(&self) -> SearchRequestView {
        SearchRequestView { manager: self.manager@, command: self.command@ }
    }
}

/// The lines that the search of `manager` printed.
pub struct SearchOutput {
    pub manager: String,
    pub lines: Vec<String>,
}

/// The mathematical content of a `SearchOutput`.
pub struct SearchOutputView {
    pub manager: Seq<char>,
    pub lines: Seq<Seq<char>>,
}

impl View for SearchOutput {
    type V = SearchOutputView;

    open spec fn view(&self) -> SearchOutputView {
        SearchOutputView { manager: self.manager@, lines: views(self.lines@) }
    }
}

/// The views of a list of requests.
pub open spec fn request_views(requests: Seq<SearchRequest>) -> Seq<SearchRequestView> {
    requests.map_values(|request: SearchRequest| request@)
}

/// The views of a list of outputs.
pub open spec fn output_views(outputs: Seq<SearchOutput>) -> Seq<SearchOutputView> {
    outputs.map_values(|output: SearchOutput| output@)
}

/// The searches for `query`: one for each manager that is present, in candidate order.
pub open spec fn search_requests(
    managers: Seq<Descriptor>,
    present: Seq<bool>,
    query: Seq<char>,
) -> Seq<SearchRequestView>
    decreases managers.len(),
{
    if managers.len() == 0 {
        Seq::empty()
    } else {
        let before = search_requests(managers.drop_last(), present, query);
        if is_present(present, managers.len() - 1) {
            before.push(
                SearchRequestView {
                    manager: managers.last().command_name,
                    command: search_command(managers.last(), query),
                },
            )
        } else {
            before
        }
    }
}

/// The labels of the lines that are not empty, in the order of the lines.
pub open spec fn paired(manager: Seq<char>, lines: Seq<Seq<char>>) -> Seq<Seq<char>>
    decreases lines.len(),
{
    if lines.len() == 0 {
        Seq::empty()
    } else {
        let before = paired(manager, lines.drop_last());
        if lines.last().len() == 0 {
            before
        } else {
            before.push(label(manager, lines.last()))
        }
    }
}

/// The labels of all outputs: manager after manager in the order of the outputs, and
/// within a manager in the order of its lines. Nothing is merged or dropped but empty
/// lines, so a package that two managers offer is listed twice.
pub open spec fn aggregated(outputs: Seq<SearchOutputView>) -> Seq<Seq<char>>
    decreases outputs.len(),
{
    if outputs.len() == 0 {
        Seq::empty()
    } else {
        aggregated(outputs.drop_last()) + paired(outputs.last().manager, outputs.last().lines)
    }
}

/// The searches to run for `query`. `present[i]` says whether `package_managers[i]` is
/// installed; a manager that is absent, or has no flag, is passed over.
pub fn gen_search_requests(
    package_managers: &Vec<PackageManager>,
    present: &Vec<bool>,
    query: &str,
) -> (requests: Vec<SearchRequest>)
    ensures
        request_views(requests@) == search_requests(
            descriptors(package_managers@),
            present@,
            query@,
        ),
{
    let mut requests: Vec<SearchRequest> = Vec::new();
    let mut i: usize = 0;
    while i < package_managers.len()
        invariant
            i <= package_managers.len(),
            request_views(requests@) == search_requests(
                descriptors(package_managers@).take(i as int),
                present@,
                query@,
            ),
        decreases package_managers.len() - i,
    {
        let ghost before = descriptors(package_managers@).take(i as int);
        let ghost now = descriptors(package_managers@).take(i + 1);
        let ghost old_requests = request_views(requests@);
        assert(now.drop_last() =~= before);
        assert(now.last() == package_managers[i as int]@);
        if i < present.len() && present[i] {
            let manager = &package_managers[i];
            let request = SearchRequest {
                manager: String::from_str(manager.command_name),
                command: manager.gen_search_command(query),
            };
            requests.push(request);
            assert(request_views(requests@) =~= old_requests.push(request@));
        }
        i += 1;
    }
    assert(descriptors(package_managers@).take(i as int) =~= descriptors(package_managers@));
    requests
}

/// The labels `"{package_manager} -> {line}"` of the lines of `package_list` that are
/// not empty, in their order.
pub fn get_paired_search_results(
    package_manager: &str,
    package_list: &Vec<String>,
) -> (labels: Vec<String>)
    ensures
        views(labels@) == paired(package_manager@, views(package_list@)),
{
    proof {
        reveal_strlit(" -> ");
    }
    let mut labels: Vec<String> = Vec::new();
    let mut i: usize = 0;
    while i < package_list.len()
        invariant
            i <= package_list.len(),
            views(labels@) == paired(package_manager@, views(package_list@).take(i as int)),
            " -> "@.len() == 4,
            " -> "@[0] == ' ',
            " -> "@[1] == '-',
            " -> "@[2] == '>',
            " -> "@[3] == ' ',
        decreases package_list.len() - i,
    {
        let ghost now = views(package_list@).take(i + 1);
        let ghost old_labels = views(labels@);
        assert(now.drop_last() =~= views(package_list@).take(i as int));
        assert(now.last() == package_list[i as int]@);
        let line = &package_list[i];
        if !line.as_str().is_empty() {
            let mut text = String::from_str(package_manager);
            text.append(" -> ");
            text.append(line.as_str());
            assert(text@ =~= label(package_manager@, line@));
            labels.push(text);
            assert(views(labels@) =~= old_labels.push(label(package_manager@, line@)));
        }
        i += 1;
    }
    assert(views(package_list@).take(i as int) =~= views(package_list@));
    labels
}

/// The labels of everything that the searches found, in the order of `outputs`.
pub fn get_search_results(outputs: &Vec<SearchOutput>) -> (labels: Vec<String>)
    ensures
        views(labels@) == aggregated(output_views(outputs@)),
{
    let mut labels: Vec<String> = Vec::new();
    let mut i: usize = 0;
    while i < outputs.len()
        invariant
            i <= outputs.len(),
            views(labels@) == aggregated(output_views(outputs@).take(i as int)),
        decreases outputs.len() - i,
    {
        let ghost now = output_views(outputs@).take(i + 1);
        let ghost old_labels = views(labels@);
        assert(now.drop_last() =~= output_views(outputs@).take(i as int));
        assert(now.last() == outputs[i as int]@);
        let output = &outputs[i];
        let mut found = get_paired_search_results(output.manager.as_str(), &output.lines);
        let ghost found_labels = views(found@);
        labels.append(&mut found);
        assert(views(labels@) =~= old_labels + found_labels);
        i += 1;
    }
    assert(output_views(outputs@).take(i as int) =~= output_views(outputs@));
    labels
}

/// Pairing goes line by line: the labels of two lists of lines, one after the other,
/// are the labels of the first followed by the labels of the second.
pub proof fn lemma_paired_concat(manager: Seq<char>, first: Seq<Seq<char>>, second: Seq<Seq<char>>)
    ensures
        paired(manager, first + second) == paired(manager, first) + paired(manager, second),
    decreases second.len(),
{
    if second.len() == 0 {
        assert(first + second =~= first);
        assert(paired(manager, first) + paired(manager, second) =~= paired(manager, first));
    } else {
        lemma_paired_concat(manager, first, second.drop_last());
        assert((first + second).drop_last() =~= first + second.drop_last());
        assert((first + second).last() == second.last());
        assert(paired(manager, first + second) =~= paired(manager, first) + paired(
            manager,
            second,
        ));
    }
}

/// Pairing drops empty lines and nothing else: the labels are those of the lines that
/// are not empty, each label made of the manager and its line.
pub proof fn lemma_paired_is_filter(manager: Seq<char>, lines: Seq<Seq<char>>)
    ensures
        paired(manager, lines) == lines.filter(|line: Seq<char>| line.len() > 0).map_values(
            |line: Seq<char>| label(manager, line),
        ),
    decreases lines.len(),
{
    let kept = |line: Seq<char>| line.len() > 0;
    let labelled = |line: Seq<char>| label(manager, line);
    reveal(Seq::filter);
    if lines.len() == 0 {
        assert(paired(manager, lines) =~= lines.filter(kept).map_values(labelled));
    } else {
        lemma_paired_is_filter(manager, lines.drop_last());
        let shorter = lines.drop_last().filter(kept);
        if lines.last().len() > 0 {
            assert(lines.filter(kept) == shorter.push(lines.last()));
            assert(lines.filter(kept).map_values(labelled) =~= shorter.map_values(labelled).push(
                label(manager, lines.last()),
            ));
        } else {
            assert(lines.filter(kept) == shorter);
        }
    }
}

/// Aggregation keeps the order of the managers: the labels of two lists of outputs,
/// one after the other, are the labels of the first followed by the labels of the
/// second, whatever the order in which the searches ended.
pub proof fn lemma_aggregated_concat(first: Seq<SearchOutputView>, second: Seq<SearchOutputView>)
    ensures
        aggregated(first + second) == aggregated(first) + aggregated(second),
    decreases second.len(),
{
    if second.len() == 0 {
        assert(first + second =~= first);
        assert(aggregated(first) + aggregated(second) =~= aggregated(first));
    } else {
        lemma_aggregated_concat(first, second.drop_last());
        assert((first + second).drop_last() =~= first + second.drop_last());
        assert((first + second).last() == second.last());
        assert(aggregated(first + second) =~= aggregated(first) + aggregated(second));
    }
}

/// The labels of a single output are the pairing of its lines.
pub proof fn lemma_aggregated_single(output: SearchOutputView)
    ensures
        aggregated(seq![output]) == paired(output.manager, output.lines),
{
    assert(aggregated(seq![output].drop_last()) =~= Seq::<Seq<char>>::empty());
    assert(aggregated(seq![output]) =~= paired(output.manager, output.lines));
}

/// Whether `text` is the label of a line of `output` that is not empty.
pub open spec fn is_result_of(text: Seq<char>, output: SearchOutputView) -> bool {
    exists|at: int|
        0 <= at < output.lines.len() && (#[trigger] output.lines[at]).len() > 0 && text == label(
            output.manager,
            output.lines[at],
        )
}

/// Every label that pairing gives belongs to a line that is not empty.
pub proof fn lemma_paired_members(manager: Seq<char>, lines: Seq<Seq<char>>, index: int)
    requires
        0 <= index < paired(manager, lines).len(),
    ensures
        is_result_of(paired(manager, lines)[index], SearchOutputView { manager, lines }),
    decreases lines.len(),
{
    let output = SearchOutputView { manager, lines };
    if lines.len() > 0 {
        let before = paired(manager, lines.drop_last());
        if index < before.len() {
            lemma_paired_members(manager, lines.drop_last(), index);
            let shorter = SearchOutputView { manager, lines: lines.drop_last() };
            let at = choose|at: int|
                0 <= at < shorter.lines.len() && (#[trigger] shorter.lines[at]).len() > 0
                    && before[index] == label(manager, shorter.lines[at]);
            assert(output.lines[at] == shorter.lines[at]);
        } else {
            assert(output.lines[lines.len() - 1].len() > 0);
        }
    }
}

/// Every aggregated label is attributed: it is the label of a line, not empty, of one
/// of the outputs.
pub proof fn lemma_aggregated_members(outputs: Seq<SearchOutputView>, index: int)
    requires
        0 <= index < aggregated(outputs).len(),
    ensures
        exists|k: int| 0 <= k < outputs.len() && is_result_of(aggregated(outputs)[index], #[trigger] outputs[k]),
    decreases outputs.len(),
{
    if outputs.len() > 0 {
        let before = aggregated(outputs.drop_last());
        if index < before.len() {
            lemma_aggregated_members(outputs.drop_last(), index);
            let k = choose|k: int|
                0 <= k < outputs.drop_last().len() && is_result_of(
                    before[index],
                    #[trigger] outputs.drop_last()[k],
                );
            assert(outputs[k] == outputs.drop_last()[k]);
        } else {
            lemma_paired_members(
                outputs.last().manager,
                outputs.last().lines,
                index - before.len(),
            );
            assert(is_result_of(aggregated(outputs)[index], outputs[outputs.len() - 1]));
        }
    }
}

/// What was aggregated can be read back: where every manager name is label-safe, each
/// aggregated label splits into the name of one of the managers and one of that
/// manager's lines.
pub proof fn lemma_aggregated_round_trip(outputs: Seq<SearchOutputView>, index: int)
    requires
        0 <= index < aggregated(outputs).len(),
        forall|k: int| 0 <= k < outputs.len() ==> is_label_safe((#[trigger] outputs[k]).manager),
    ensures
        split_label(aggregated(outputs)[index]) matches Some(pair) && exists|k: int|
            0 <= k < outputs.len() && pair.0 == (#[trigger] outputs[k]).manager
                && outputs[k].lines.contains(pair.1) && pair.1.len() > 0,
{
    lemma_aggregated_members(outputs, index);
    let text = aggregated(outputs)[index];
    let k = choose|k: int| 0 <= k < outputs.len() && is_result_of(text, #[trigger] outputs[k]);
    let output = outputs[k];
    let at = choose|at: int|
        0 <= at < output.lines.len() && (#[trigger] output.lines[at]).len() > 0 && text == label(
            output.manager,
            output.lines[at],
        );
    lemma_split_inverts_label(output.manager, output.lines[at]);
    assert(outputs[k].lines.contains(output.lines[at]));
}

} // verus!
