use vstd::prelude::*;

use crate::sequence::{OEISSequence, SequenceView};
use crate::text::{join_text, joined, texts, zero_padded, zero_padded_text};

verus! {

/// Who speaks a message of the analysis conversation.
#[derive(Clone, Copy, Debug, PartialEq, Eq, Structural)]
pub enum Role {
    User,
    Assistant,
}

/// One message of the analysis conversation.
#[derive(Clone, Debug, PartialEq)]
pub struct PromptMessage {
    pub role: Role,
    pub text: String,
}

/// The user's request for an analysis of the sequence `id`.
pub open spec fn user_prompt_text(id: Seq<char>) -> Seq<char> {
    "Please provide a comprehensive analysis of OEIS sequence "@ + id
        + ". Include:\n1. The definition and meaning of this sequence\n2. Mathematical properties and patterns\n3. Real-world applications or significance\n4. Relationships to other sequences\n5. Interesting facts or observations"@
}

/// The label of a sequence: `A` and its number filled with zeros to six digits.
pub open spec fn sequence_label(number: int) -> Seq<char> {
    "A"@ + zero_padded(number, 6)
}

/// A titled section of the digest: nothing at all where there are no items,
/// else the bold title, the items one per line, and a blank line.
pub open spec fn section_text(title: Seq<char>, items: Seq<Seq<char>>) -> Seq<char> {
    if items.len() == 0 {
        Seq::empty()
    } else {
        "**"@ + title + ":**\n"@ + joined(items, "\n"@) + "\n\n"@
    }
}

/// The assistant's digest of a record: a header with its label, its name,
/// data and keywords, then its comments, formulas and cross-references,
/// each section left out where its list is empty.
pub open spec fn analysis_text(s: SequenceView) -> Seq<char> {
    "# OEIS Sequence "@ + sequence_label(s.number) + "\n\n**Name:** "@ + s.name
        + "\n\n**Data (first few terms):** "@ + s.data + "\n\n**Keywords:** "@ + s.keyword
        + "\n\n"@ + section_text("Comments"@, s.comment) + section_text("Formulas"@, s.formula)
        + section_text("Cross-references"@, s.xref)
}

/// The label of the sequence with this number, as `A000045`.
pub fn sequence_label_text(number: i64) -> (r: String)
    ensures
        r@ == sequence_label(number as int),
{
    let mut r = String::from_str("A");
    let digits = zero_padded_text(number, 6);
    r.append(digits.as_str());
    r
}

/// The user's request for an analysis of the sequence `sequence_id`.
pub fn build_user_message(sequence_id: &str) -> (r: PromptMessage)
    ensures
        r.role == Role::User,
        r.text@ == user_prompt_text(sequence_id@),
{
    let mut text = String::from_str("Please provide a comprehensive analysis of OEIS sequence ");
    text.append(sequence_id);
    text.append(
        ". Include:\n1. The definition and meaning of this sequence\n2. Mathematical properties and patterns\n3. Real-world applications or significance\n4. Relationships to other sequences\n5. Interesting facts or observations",
    );
    PromptMessage { role: Role::User, text }
}

/// A titled section of the digest, empty where `contents` is.
pub fn empty_or_join(title: &str, contents: &Vec<String>) -> (r: String)
    ensures
        r@ == section_text(title@, texts(contents@)),
        contents@.len() == 0 ==> r@.len() == 0,
{
    if contents.len() == 0 {
        String::new()
    } else {
        let mut r = String::from_str("**");
        r.append(title);
        r.append(":**\n");
        let body = join_text(contents, "\n");
        r.append(body.as_str());
        r.append("\n\n");
        r
    }
}

/// The assistant's digest of a record.
pub fn build_assistant_messages(sequence: &OEISSequence) -> (r: PromptMessage)
    ensures
        r.role == Role::Assistant,
        r.text@ == analysis_text(sequence@),
{
    let label = sequence_label_text(sequence.number);
    let comments = empty_or_join("Comments", &sequence.comment);
    let formulas = empty_or_join("Formulas", &sequence.formula);
    let xrefs = empty_or_join("Cross-references", &sequence.xref);
    let mut text = String::from_str("# OEIS Sequence ");
    text.append(label.as_str());
    text.append("\n\n**Name:** ");
    text.append(sequence.name.as_str());
    text.append("\n\n**Data (first few terms):** ");
    text.append(sequence.data.as_str());
    text.append("\n\n**Keywords:** ");
    text.append(sequence.keyword.as_str());
    text.append("\n\n");
    text.append(comments.as_str());
    text.append(formulas.as_str());
    text.append(xrefs.as_str());
    PromptMessage { role: Role::Assistant, text }
}

/// A record without formulas or cross-references has neither section in its
/// digest: the digest ends with its comments section.
pub proof fn lemma_empty_sections_left_out(s: SequenceView)
    requires
        s.formula.len() == 0,
        s.xref.len() == 0,
    ensures
        analysis_text(s) == "# OEIS Sequence "@ + sequence_label(s.number) + "\n\n**Name:** "@
            + s.name + "\n\n**Data (first few terms):** "@ + s.data + "\n\n**Keywords:** "@
            + s.keyword + "\n\n"@ + section_text("Comments"@, s.comment),
{
    assert(section_text("Formulas"@, s.formula) =~= Seq::empty());
    assert(section_text("Cross-references"@, s.xref) =~= Seq::empty());
    let head = "# OEIS Sequence "@ + sequence_label(s.number) + "\n\n**Name:** "@ + s.name
        + "\n\n**Data (first few terms):** "@ + s.data + "\n\n**Keywords:** "@ + s.keyword
        + "\n\n"@ + section_text("Comments"@, s.comment);
    assert(head + Seq::<char>::empty() + Seq::<char>::empty() =~= head);
}

} // verus!
