//! The output aggregator.
//!
//! A `ReportConfig` declares, once and immutably, which labeled commands a
//! report runs and which static template text (preamble, separator, footer)
//! surrounds their outputs. The commands are spawned concurrently outside
//! this crate and may complete in any order; what this module owns is the
//! join: every section's run must have succeeded before any document
//! exists, the first failure invalidates the whole aggregation, and the
//! document places each output at its declared position, never at its
//! completion position.

use vstd::prelude::*;
use vstd::string::StringExecFns;
use crate::command::CommandSpec;
use crate::runner::RunError;

verus! {

/// One labeled slot of a report: the static label text that precedes the
/// command's output, and the command that produces the output.
pub struct Section {
    pub label: String,
    pub command: CommandSpec,
}

/// A fixed aggregation configuration: static preamble, the sections in
/// declared order, the static separator placed between adjacent sections,
/// and a static footer. Immutable once constructed.
pub struct ReportConfig {
    pub preamble: String,
    pub sections: Vec<Section>,
    pub separator: String,
    pub footer: String,
}

/// `parts` concatenated with `sep` between adjacent parts (and nowhere
/// else).
pub open spec fn joined(parts: Seq<Seq<char>>, sep: Seq<char>) -> Seq<char>
    decreases parts.len(),
{
    if parts.len() == 0 {
        Seq::empty()
    } else if parts.len() == 1 {
        parts[0]
    } else {
        joined(parts.drop_last(), sep) + sep + parts.last()
    }
}

/// The document owed for the given template and the given per-section
/// outputs: preamble, then each label followed by its section's output,
/// separated, then the footer.
pub open spec fn document_text(
    preamble: Seq<char>,
    labels: Seq<Seq<char>>,
    outputs: Seq<Seq<char>>,
    sep: Seq<char>,
    footer: Seq<char>,
) -> Seq<char> {
    preamble + joined(Seq::new(labels.len(), |i: int| labels[i] + outputs[i]), sep) + footer
}

impl ReportConfig {
    /// The section labels, in declared order.
    pub open spec fn labels(&self) -> Seq<Seq<char>> {
        Seq::new(self.sections@.len(), |i: int| self.sections@[i].label@)
    }

    /// The document owed once every section's output is at hand.
    pub open spec fn document(&self, outputs: Seq<Seq<char>>) -> Seq<char> {
        document_text(self.preamble@, self.labels(), outputs, self.separator@, self.footer@)
    }

    /// Whether every command of the configuration carries the kill-on-drop
    /// obligation, so that no process it spawns can outlive its request.
    pub open spec fn all_kill_on_drop(&self) -> bool {
        forall|i: int| 0 <= i < self.sections@.len() ==> (#[trigger] self.sections@[i]).command.kill_on_drop
    }
}

/// Assemble the response document from the per-section outputs, which stand
/// in declared order. Purely a function of the template and the ordered
/// outputs: completion order cannot influence it.
pub fn assemble(config: &ReportConfig, outputs: &Vec<String>) -> (doc: String)
    requires
        outputs@.len() == config.sections@.len(),
    ensures
        doc@ == config.document(outputs.deep_view()),
{
    let ghost parts = Seq::new(
        config.labels().len(),
        |i: int| config.labels()[i] + outputs.deep_view()[i],
    );
    let mut doc = String::new();
    doc.append(config.preamble.as_str());
    let mut j: usize = 0;
    while j < outputs.len()
        invariant
            j <= outputs.len(),
            outputs@.len() == config.sections@.len(),
            parts == Seq::new(
                config.labels().len(),
                |i: int| config.labels()[i] + outputs.deep_view()[i],
            ),
            doc@ == config.preamble@ + joined(parts.take(j as int), config.separator@),
        decreases outputs.len() - j,
    {
        if j > 0 {
            doc.append(config.separator.as_str());
        }
        doc.append(config.sections[j].label.as_str());
        doc.append(outputs[j].as_str());
        j = j + 1;
        proof {
            assert(parts.take(j as int).drop_last() =~= parts.take(j as int - 1));
            assert(doc@ =~= config.preamble@ + joined(parts.take(j as int), config.separator@));
        }
    }
    doc.append(config.footer.as_str());
    proof {
        assert(parts.take(j as int) =~= parts);
        assert(doc@ =~= config.document(outputs.deep_view()));
    }
    doc
}

/// Join the per-section run results, which stand in declared order, into
/// one response document. A document is owed exactly when every run
/// succeeded; otherwise the aggregation fails with the error of the first
/// failed run, and none of the other runs' outputs is exposed.
pub fn aggregate(config: &ReportConfig, results: Vec<Result<String, RunError>>) -> (r: Result<
    String,
    RunError,
>)
    requires
        results@.len() == config.sections@.len(),
    ensures
        r is Ok <==> (forall|i: int| 0 <= i < results@.len() ==> (#[trigger] results@[i]) is Ok),
        r is Ok ==> r->Ok_0@ == config.document(
            Seq::new(results@.len(), |i: int| results@[i]->Ok_0@),
        ),
        r is Err ==> exists|i: int|
            0 <= i < results@.len() && (#[trigger] results@[i]) is Err
                && r->Err_0 == results@[i]->Err_0
                && (forall|k: int| 0 <= k < i ==> (#[trigger] results@[k]) is Ok),
{
    let ghost all = results@;
    let mut rest = results;
    let n = rest.len();
    proof {
        assert(all.len() == n);
    }
    let mut texts: Vec<String> = Vec::new();
    let mut j: usize = 0;
    while rest.len() > 0
        invariant
            all == results@,
            all.len() <= usize::MAX,
            j == texts@.len(),
            all.len() == j + rest@.len(),
            rest@ =~= all.skip(j as int),
            forall|k: int| 0 <= k < j ==> (#[trigger] all[k]) is Ok,
            forall|k: int| 0 <= k < j ==> (#[trigger] texts@[k])@ == all[k]->Ok_0@,
        decreases rest@.len(),
    {
        let next = rest.remove(0);
        proof {
            assert(all.skip(j as int)[0] == all[j as int]);
            assert(next == all[j as int]);
            assert(rest@ =~= all.skip(j as int + 1));
        }
        match next {
            Ok(text) => {
                texts.push(text);
                j = j + 1;
            },
            Err(e) => {
                proof {
                    assert((results@[j as int]) is Err);
                }
                return Err(e);
            },
        }
    }
    proof {
        assert(texts@.len() == config.sections@.len());
        assert(texts.deep_view() =~~= Seq::new(all.len(), |i: int| all[i]->Ok_0@));
    }
    let doc = assemble(config, &texts);
    Ok(doc)
}

} // verus!
