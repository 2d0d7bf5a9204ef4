//! The converter's job descriptor.
//!
//! A small declarative XML document naming the input path, the output
//! path, the font directory and the fixed numeric format-target code
//! (513, the PDF target). The converter parses this document and is not
//! under this system's control, so the element names and the document
//! shape are preserved bit-for-bit.

use vstd::prelude::*;
use vstd::string::StringExecFns;

verus! {

/// The exact text of the job descriptor for the given input path, output
/// path and font directory.
pub open spec fn job_descriptor_view(input: Seq<char>, output: Seq<char>, fonts: Seq<char>) -> Seq<
    char,
> {
    "\n        <?xml version=\"1.0\" encoding=\"utf-8\"?>\n        <TaskQueueDataConvert xmlns:xsi=\"http://www.w3.org/2001/XMLSchema-instance\"\n                              xmlns:xsd=\"http://www.w3.org/2001/XMLSchema\">\n          <m_sFileFrom>"@
        + input + "</m_sFileFrom>\n          <m_sFileTo>"@ + output
        + "</m_sFileTo>\n          <m_sFontDir>"@ + fonts
        + "</m_sFontDir>\n          <m_nFormatTo>513</m_nFormatTo>\n        </TaskQueueDataConvert>\n        "@
}

/// Render the job descriptor: exactly the document the converter parses,
/// with the caller's paths embedded verbatim.
pub fn build_job_descriptor(input_path: &str, output_path: &str, font_dir: &str) -> (r: String)
    ensures
        r@ == job_descriptor_view(input_path@, output_path@, font_dir@),
{
    let mut s = String::from_str(
        "\n        <?xml version=\"1.0\" encoding=\"utf-8\"?>\n        <TaskQueueDataConvert xmlns:xsi=\"http://www.w3.org/2001/XMLSchema-instance\"\n                              xmlns:xsd=\"http://www.w3.org/2001/XMLSchema\">\n          <m_sFileFrom>",
    );
    s.append(input_path);
    s.append("</m_sFileFrom>\n          <m_sFileTo>");
    s.append(output_path);
    s.append("</m_sFileTo>\n          <m_sFontDir>");
    s.append(font_dir);
    s.append(
        "</m_sFontDir>\n          <m_nFormatTo>513</m_nFormatTo>\n        </TaskQueueDataConvert>\n        ",
    );
    proof {
        assert(s@ =~= job_descriptor_view(input_path@, output_path@, font_dir@));
    }
    s
}

/// A sequence embedded between a prefix and a suffix is recovered exactly
/// by the subrange at the prefix's end.
proof fn lemma_embedded_subrange(pre: Seq<char>, mid: Seq<char>, suf: Seq<char>)
    ensures
        (pre + mid + suf).subrange(pre.len() as int, pre.len() + mid.len() as int) == mid,
{
    let s = pre + mid + suf;
    assert forall|j: int| 0 <= j < mid.len() implies s[pre.len() + j] == mid[j] by {}
    assert(s.subrange(pre.len() as int, pre.len() + mid.len() as int) =~= mid);
}

/// Law: the descriptor hands the converter exactly the caller's paths.
/// The characters between the `m_sFileFrom` tags are the input path, and
/// those between the `m_sFileTo` tags are the output path — the same
/// output path the pipeline's upload stage later streams to the
/// destination object.
pub proof fn lemma_descriptor_embeds_paths(input: Seq<char>, output: Seq<char>, fonts: Seq<char>)
    ensures
        ({
            let d = job_descriptor_view(input, output, fonts);
            let from_at = "\n        <?xml version=\"1.0\" encoding=\"utf-8\"?>\n        <TaskQueueDataConvert xmlns:xsi=\"http://www.w3.org/2001/XMLSchema-instance\"\n                              xmlns:xsd=\"http://www.w3.org/2001/XMLSchema\">\n          <m_sFileFrom>"@.len() as int;
            d.subrange(from_at, from_at + input.len() as int) == input
        }),
        ({
            let d = job_descriptor_view(input, output, fonts);
            let to_at = "\n        <?xml version=\"1.0\" encoding=\"utf-8\"?>\n        <TaskQueueDataConvert xmlns:xsi=\"http://www.w3.org/2001/XMLSchema-instance\"\n                              xmlns:xsd=\"http://www.w3.org/2001/XMLSchema\">\n          <m_sFileFrom>"@.len() + input.len() + "</m_sFileFrom>\n          <m_sFileTo>"@.len() as int;
            d.subrange(to_at as int, to_at as int + output.len() as int) == output
        }),
{
    let head =
        "\n        <?xml version=\"1.0\" encoding=\"utf-8\"?>\n        <TaskQueueDataConvert xmlns:xsi=\"http://www.w3.org/2001/XMLSchema-instance\"\n                              xmlns:xsd=\"http://www.w3.org/2001/XMLSchema\">\n          <m_sFileFrom>"@;
    let mid1 = "</m_sFileFrom>\n          <m_sFileTo>"@;
    let mid2 = "</m_sFileTo>\n          <m_sFontDir>"@;
    let tail =
        "</m_sFontDir>\n          <m_nFormatTo>513</m_nFormatTo>\n        </TaskQueueDataConvert>\n        "@;
    let d = job_descriptor_view(input, output, fonts);
    assert(d =~= head + input + (mid1 + output + mid2 + fonts + tail));
    lemma_embedded_subrange(head, input, mid1 + output + mid2 + fonts + tail);
    assert(d =~= (head + input + mid1) + output + (mid2 + fonts + tail));
    lemma_embedded_subrange(head + input + mid1, output, mid2 + fonts + tail);
}

} // verus!
