//! Structured assertion failures and their human-readable reports.

use vstd::prelude::*;
use crate::text::{chars_of, push_text, text_of};

verus! {

/// The family of relation that an assertion checked.
#[derive(Clone, Copy, Debug, PartialEq, Eq, Structural)]
pub enum FailureKind {
    Equality,
    Order,
    Membership,
    Predicate,
    Length,
    Variant,
    Matching,
    Identity,
    Panic,
    Other,
}

/// One piece of supporting evidence: a labelled value (`label: text`) or, without a
/// label, a note listed under `Details:`.
pub struct Fact {
    pub label: Option<String>,
    pub text: String,
}

/// The abstract content of a [`Fact`].
pub ghost struct FactView {
    pub label: Option<Seq<char>>,
    pub text: Seq<char>,
}

impl View for Fact {
    type V = FactView;

    open spec fn view(&self) -> FactView {
        FactView { label: opt_text(self.label), text: self.text@ }
    }
}

/// The characters of an optional string.
pub open spec fn opt_text(o: Option<String>) -> Option<Seq<char>> {
    match o {
        Some(s) => Some(s@),
        None => None,
    }
}

/// A failed assertion: what was checked, the rendered operands, and supporting facts.
pub struct AssertionFailure {
    pub kind: FailureKind,
    /// Where the assertion was written (`file:line:column`), when known.
    pub location: Option<String>,
    /// Source text or name of the subject, when known.
    pub expression: Option<String>,
    /// The rendered subject.
    pub actual: Option<String>,
    /// The relation that held instead of the expected one, such as `is not lowercase`.
    pub relation: Option<String>,
    /// The rendered expected operand.
    pub expected: Option<String>,
    /// The rendered operand that the subject was required to differ from.
    pub unexpected: Option<String>,
    /// Labelled values and notes.
    pub facts: Vec<Fact>,
    /// Context messages attached to the assertion chain.
    pub details: Vec<String>,
}

/// The abstract content of an [`AssertionFailure`].
pub ghost struct FailureView {
    pub kind: FailureKind,
    pub location: Option<Seq<char>>,
    pub expression: Option<Seq<char>>,
    pub actual: Option<Seq<char>>,
    pub relation: Option<Seq<char>>,
    pub expected: Option<Seq<char>>,
    pub unexpected: Option<Seq<char>>,
    pub facts: Seq<FactView>,
    pub details: Seq<Seq<char>>,
}

/// The abstract content of each fact, in order.
pub open spec fn facts_view(facts: Seq<Fact>) -> Seq<FactView> {
    facts.map_values(|f: Fact| f@)
}

/// The characters of each string, in order.
pub open spec fn texts_view(texts: Seq<String>) -> Seq<Seq<char>> {
    texts.map_values(|t: String| t@)
}

impl View for AssertionFailure {
    type V = FailureView;

    open spec fn view(&self) -> FailureView {
        FailureView {
            kind: self.kind,
            location: opt_text(self.location),
            expression: opt_text(self.expression),
            actual: opt_text(self.actual),
            relation: opt_text(self.relation),
            expected: opt_text(self.expected),
            unexpected: opt_text(self.unexpected),
            facts: facts_view(self.facts@),
            details: texts_view(self.details@),
        }
    }
}

/// A failure of the given kind with no operands, facts or context yet.
pub open spec fn bare_failure(kind: FailureKind) -> FailureView {
    FailureView {
        kind,
        location: None,
        expression: None,
        actual: None,
        relation: None,
        expected: None,
        unexpected: None,
        facts: Seq::empty(),
        details: Seq::empty(),
    }
}

/// A failure of `kind` with the given operands and relation, and no facts or context.
pub open spec fn failure_with(
    kind: FailureKind,
    actual: Option<Seq<char>>,
    relation: Option<Seq<char>>,
    expected: Option<Seq<char>>,
    unexpected: Option<Seq<char>>,
) -> FailureView {
    FailureView {
        kind,
        location: None,
        expression: None,
        actual,
        relation,
        expected,
        unexpected,
        facts: Seq::empty(),
        details: Seq::empty(),
    }
}

/// `f` with one more fact.
pub open spec fn with_fact(f: FailureView, label: Option<Seq<char>>, text: Seq<char>) -> FailureView {
    FailureView { facts: f.facts.push(FactView { label, text }), ..f }
}

/// The abstract content of each failure, in order.
pub open spec fn failures_view(failures: Seq<AssertionFailure>) -> Seq<FailureView> {
    failures.map_values(|f: AssertionFailure| f@)
}

/// The line that opens and closes every report.
pub open spec fn banner() -> Seq<char> {
    "-------- assertr --------"@
}

/// `parts` joined with `sep` between consecutive parts.
pub open spec fn joined(parts: Seq<Seq<char>>, sep: Seq<char>) -> Seq<char>
    decreases parts.len(),
{
    if parts.len() == 0 {
        Seq::empty()
    } else if parts.len() == 1 {
        parts[0]
    } else {
        joined(parts.drop_last(), sep) + sep + parts.last()
    }
}

/// A one-element section list holding `prefix + text`, or nothing.
pub open spec fn labelled_section(prefix: Seq<char>, text: Option<Seq<char>>) -> Seq<Seq<char>> {
    match text {
        Some(t) => seq![prefix + t],
        None => Seq::empty(),
    }
}

/// Whether the report shows the operands side by side (`Expected:` above `  Actual:`):
/// a failure with an actual and an expected operand and no stated relation.
pub open spec fn uses_comparison_layout(f: FailureView) -> bool {
    &&& f.actual is Some
    &&& f.expected is Some
    &&& f.relation is None
    &&& f.unexpected is None
}

/// The sections describing the operands and the relation.
pub open spec fn operand_sections(f: FailureView) -> Seq<Seq<char>> {
    if uses_comparison_layout(f) {
        seq!["Expected: "@ + f.expected->0, "  Actual: "@ + f.actual->0]
    } else {
        labelled_section("Actual: "@, f.actual)
            + labelled_section(""@, f.relation)
            + labelled_section("Expected: "@, f.expected)
            + labelled_section("Unexpected: "@, f.unexpected)
    }
}

/// Whether a text runs over more than one line.
pub open spec fn spans_lines(t: Seq<char>) -> bool {
    t.contains('\n')
}

/// The labelled facts whose text runs over several lines, each a section of its own,
/// `label: text`, in order.
pub open spec fn fact_blocks(facts: Seq<FactView>) -> Seq<Seq<char>>
    decreases facts.len(),
{
    if facts.len() == 0 {
        Seq::empty()
    } else {
        let rest = fact_blocks(facts.drop_last());
        match facts.last().label {
            Some(l) => if spans_lines(facts.last().text) {
                rest.push(l + ": "@ + facts.last().text)
            } else {
                rest
            },
            None => rest,
        }
    }
}

/// The other facts as they are listed under `Details:`, in order: a labelled fact on one
/// line as `label: text`, a note as its text.
pub open spec fn fact_items(facts: Seq<FactView>) -> Seq<Seq<char>>
    decreases facts.len(),
{
    if facts.len() == 0 {
        Seq::empty()
    } else {
        let rest = fact_items(facts.drop_last());
        match facts.last().label {
            Some(l) => if spans_lines(facts.last().text) {
                rest
            } else {
                rest.push(l + ": "@ + facts.last().text)
            },
            None => rest.push(facts.last().text),
        }
    }
}

/// Whether `t` holds a line break.
pub fn has_line_break(t: &str) -> (b: bool)
    ensures
        b == spans_lines(t@),
{
    let v = chars_of(t);
    let mut i: usize = 0;
    while i < v.len()
        invariant
            i <= v.len(),
            v@ == t@,
            forall|k: int| 0 <= k < i ==> v@[k] != '\n',
        decreases v.len() - i,
    {
        if v[i] == '\n' {
            return true;
        }
        i = i + 1;
    }
    false
}

/// Bulleted lines, each `\n  - item`.
pub open spec fn bullets(items: Seq<Seq<char>>) -> Seq<char>
    decreases items.len(),
{
    if items.len() == 0 {
        Seq::empty()
    } else {
        bullets(items.drop_last()) + "\n  - "@ + items.last()
    }
}

/// The `Details:` section listing the facts and then the context messages, if there are any.
pub open spec fn details_sections(f: FailureView) -> Seq<Seq<char>> {
    let items = fact_items(f.facts) + f.details;
    if items.len() == 0 {
        Seq::empty()
    } else {
        seq!["Details:"@ + bullets(items)]
    }
}

/// All report sections, in order.
pub open spec fn report_sections(f: FailureView) -> Seq<Seq<char>> {
    labelled_section("Assertion failed at "@, f.location) + labelled_section("Expression: `"@, match f.expression {
        Some(e) => Some(e + "`"@),
        None => None,
    }) + operand_sections(f) + fact_blocks(f.facts) + details_sections(f)
}

/// The human-readable report: the banner, the sections separated by blank lines, the banner.
pub open spec fn report_text(f: FailureView) -> Seq<char> {
    banner() + "\n"@ + joined(report_sections(f), "\n\n"@) + "\n"@ + banner() + "\n"@
}

proof fn lemma_texts_view_push(s: Seq<String>, t: String)
    ensures
        texts_view(s.push(t)) == texts_view(s).push(t@),
{
    assert(texts_view(s.push(t)) =~= texts_view(s).push(t@));
}

fn push_labelled(sections: &mut Vec<String>, prefix: &str, text: &Option<String>)
    ensures
        texts_view(final(sections)@) == texts_view(old(sections)@) + labelled_section(
            prefix@,
            opt_text(*text),
        ),
{
    let ghost before = texts_view(sections@);
    match text {
        Some(t) => {
            let mut s = text_of(prefix);
            push_text(&mut s, t.as_str());
            sections.push(s);
            assert(texts_view(sections@) =~= before.push(prefix@ + t@));
        },
        None => {
            assert(labelled_section(prefix@, None) =~= Seq::<Seq<char>>::empty());
            assert(texts_view(sections@) =~= before + Seq::<Seq<char>>::empty());
        },
    }
}

/// Joins strings with `sep` between consecutive ones.
pub fn join_texts(parts: &Vec<String>, sep: &str) -> (s: String)
    ensures
        s@ == joined(texts_view(parts@), sep@),
{
    let mut s = String::new();
    let mut i: usize = 0;
    while i < parts.len()
        invariant
            i <= parts.len(),
            s@ == joined(texts_view(parts@.take(i as int)), sep@),
        decreases parts.len() - i,
    {
        if i > 0 {
            push_text(&mut s, sep);
        }
        push_text(&mut s, parts[i].as_str());
        proof {
            let t = texts_view(parts@.take(i + 1));
            assert(t.drop_last() =~= texts_view(parts@.take(i as int)));
            assert(t.last() == parts@[i as int]@);
            if i == 0 {
                assert(t.len() == 1);
            }
        }
        i = i + 1;
    }
    assert(parts@.take(parts.len() as int) =~= parts@);
    s
}

impl AssertionFailure {
    /// A failure of `kind` with nothing filled in yet.
    pub fn new(kind: FailureKind) -> (f: AssertionFailure)
        ensures
            f@ == bare_failure(kind),
    {
        let f = AssertionFailure {
            kind,
            location: None,
            expression: None,
            actual: None,
            relation: None,
            expected: None,
            unexpected: None,
            facts: Vec::new(),
            details: Vec::new(),
        };
        assert(f@.facts =~= Seq::<FactView>::empty());
        assert(f@.details =~= Seq::<Seq<char>>::empty());
        f
    }

    /// A failure of `kind` with the given operands and relation.
    pub fn assemble(
        kind: FailureKind,
        actual: Option<String>,
        relation: Option<String>,
        expected: Option<String>,
        unexpected: Option<String>,
    ) -> (f: AssertionFailure)
        ensures
            f@ == failure_with(
                kind,
                opt_text(actual),
                opt_text(relation),
                opt_text(expected),
                opt_text(unexpected),
            ),
    {
        let f = AssertionFailure {
            kind,
            location: None,
            expression: None,
            actual,
            relation,
            expected,
            unexpected,
            facts: Vec::new(),
            details: Vec::new(),
        };
        assert(f@.facts =~= Seq::<FactView>::empty());
        assert(f@.details =~= Seq::<Seq<char>>::empty());
        f
    }

    /// Adds a fact: labelled when `label` is given, otherwise a note.
    pub fn add_fact(self, label: Option<String>, text: String) -> (f: AssertionFailure)
        ensures
            f@ == with_fact(self@, opt_text(label), text@),
    {
        let mut facts = self.facts;
        let ghost before = facts@;
        let fact = Fact { label, text };
        facts.push(fact);
        assert(facts_view(facts@) =~= facts_view(before).push(fact@));
        AssertionFailure { facts, ..self }
    }

    fn operand_texts(&self, sections: &mut Vec<String>)
        ensures
            texts_view(final(sections)@) == texts_view(old(sections)@) + operand_sections(self@),
    {
        let ghost before = texts_view(sections@);
        let comparison = match (&self.actual, &self.expected, &self.relation, &self.unexpected) {
            (Some(_), Some(_), None, None) => true,
            _ => false,
        };
        if comparison {
            push_labelled(sections, "Expected: ", &self.expected);
            push_labelled(sections, "  Actual: ", &self.actual);
            assert(texts_view(sections@) =~= before + operand_sections(self@));
        } else {
            push_labelled(sections, "Actual: ", &self.actual);
            push_labelled(sections, "", &self.relation);
            push_labelled(sections, "Expected: ", &self.expected);
            push_labelled(sections, "Unexpected: ", &self.unexpected);
            assert(texts_view(sections@) =~= before + operand_sections(self@));
        }
    }

    fn fact_texts(&self, sections: &mut Vec<String>)
        ensures
            texts_view(final(sections)@) == texts_view(old(sections)@) + fact_blocks(self@.facts) + details_sections(self@),
    {
        let ghost before = texts_view(sections@);
        let ghost fv = self@.facts;
        let mut items: Vec<String> = Vec::new();
        let mut i: usize = 0;
        while i < self.facts.len()
            invariant
                i <= self.facts.len(),
                fv == facts_view(self.facts@),
                texts_view(sections@) == before + fact_blocks(fv.take(i as int)),
                texts_view(items@) == fact_items(fv.take(i as int)),
            decreases self.facts.len() - i,
        {
            let ghost sec_before = texts_view(sections@);
            let ghost items_before = texts_view(items@);
            proof {
                assert(fv.take(i + 1).drop_last() =~= fv.take(i as int));
                assert(fv.take(i + 1).last() == self.facts@[i as int]@);
            }
            let fact = &self.facts[i];
            match &fact.label {
                Some(label) => {
                    let mut s = text_of(label.as_str());
                    push_text(&mut s, ": ");
                    push_text(&mut s, fact.text.as_str());
                    if has_line_break(fact.text.as_str()) {
                        sections.push(s);
                        assert(texts_view(sections@) =~= sec_before.push(label@ + ": "@ + fact.text@));
                    } else {
                        items.push(s);
                        assert(texts_view(items@) =~= items_before.push(label@ + ": "@ + fact.text@));
                    }
                },
                None => {
                    items.push(text_of(fact.text.as_str()));
                    assert(texts_view(items@) =~= items_before.push(fact.text@));
                },
            }
            i = i + 1;
        }
        assert(fv.take(self.facts.len() as int) =~= fv);
        let mut j: usize = 0;
        let ghost notes_view = texts_view(items@);
        while j < self.details.len()
            invariant
                j <= self.details.len(),
                texts_view(items@) == notes_view + texts_view(self.details@).take(j as int),
            decreases self.details.len() - j,
        {
            let ghost before_items = items@;
            items.push(text_of(self.details[j].as_str()));
            proof {
                lemma_texts_view_push(before_items, items@.last());
                assert(items@ =~= before_items.push(items@.last()));
                assert(texts_view(self.details@).take(j + 1) =~= texts_view(self.details@).take(
                    j as int,
                ).push(self.details@[j as int]@));
                assert(texts_view(items@) =~= notes_view + texts_view(self.details@).take(j + 1));
            }
            j = j + 1;
        }
        assert(texts_view(self.details@).take(self.details.len() as int) =~= texts_view(
            self.details@,
        ));
        let ghost all = texts_view(items@);
        assert(all == fact_items(self@.facts) + self@.details);
        let ghost mid = texts_view(sections@);
        if items.len() > 0 {
            let mut block = text_of("Details:");
            let mut k: usize = 0;
            while k < items.len()
                invariant
                    k <= items.len(),
                    all == texts_view(items@),
                    block@ == "Details:"@ + bullets(all.take(k as int)),
                decreases items.len() - k,
            {
                push_text(&mut block, "\n  - ");
                push_text(&mut block, items[k].as_str());
                assert(all.take(k + 1).drop_last() =~= all.take(k as int));
                k = k + 1;
            }
            assert(all.take(items.len() as int) =~= all);
            sections.push(block);
            assert(texts_view(sections@) =~= mid.push("Details:"@ + bullets(all)));
        } else {
            assert(texts_view(sections@) =~= mid + details_sections(self@));
        }
    }

    /// Renders the failure as the human-readable report.
    pub fn to_human_readable_text(&self) -> (s: String)
        ensures
            s@ == report_text(self@),
    {
        let mut sections: Vec<String> = Vec::new();
        push_labelled(&mut sections, "Assertion failed at ", &self.location);
        let ghost at = texts_view(sections@);
        match &self.expression {
            Some(e) => {
                let mut s = text_of("Expression: `");
                push_text(&mut s, e.as_str());
                push_text(&mut s, "`");
                sections.push(s);
                assert(texts_view(sections@) =~~= at + seq!["Expression: `"@ + (e@ + "`"@)]);
            },
            None => {
                assert(texts_view(sections@) =~= at + Seq::<Seq<char>>::empty());
            },
        }
        let ghost first = texts_view(sections@);
        assert(first =~= labelled_section("Assertion failed at "@, self@.location) + labelled_section("Expression: `"@, match self@.expression {
            Some(e) => Some(e + "`"@),
            None => None,
        }));
        self.operand_texts(&mut sections);
        self.fact_texts(&mut sections);
        assert(texts_view(sections@) =~= report_sections(self@));
        let body = join_texts(&sections, "\n\n");
        let mut s = text_of("-------- assertr --------");
        push_text(&mut s, "\n");
        push_text(&mut s, body.as_str());
        push_text(&mut s, "\n");
        push_text(&mut s, "-------- assertr --------");
        push_text(&mut s, "\n");
        proof {
            reveal_strlit("-------- assertr --------");
            assert(s@ =~= report_text(self@));
        }
        s
    }
}

} // verus!
