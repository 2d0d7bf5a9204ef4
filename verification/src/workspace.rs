//! The temporary workspace: three uniquely named sibling paths.
//!
//! One conversion run owns a triple of paths (converter config, downloaded
//! input, produced output) inside a shared temp root, each suffixed with a
//! fresh 128-bit random identifier so that concurrent runs sharing the
//! root never collide. The root is handed in as an already-validated
//! absolute path, so joining keeps the paths absolute.

use vstd::prelude::*;
use vstd::string::StringExecFns;

verus! {

/// `c` is a lowercase hexadecimal digit.
pub open spec fn is_lower_hex_digit(c: char) -> bool {
    ('0' as u32 <= c as u32 && c as u32 <= '9' as u32) || ('a' as u32 <= c as u32 && c as u32
        <= 'f' as u32)
}

/// A fresh identifier as the allocator renders it: 32 lowercase
/// hexadecimal digits.
pub open spec fn is_fresh_id(id: Seq<char>) -> bool {
    id.len() == 32 && (forall|i: int| 0 <= i < 32 ==> is_lower_hex_digit(#[trigger] id[i]))
}

/// Relies on `uuid::Uuid::new_v4` and the simple format's `Display`:
/// the rendering is 32 lowercase hexadecimal digits. Nothing is promised
/// of which digits come out: the value is random.
#[verifier::external_body]
fn fresh_hex_id() -> (r: String)
    ensures
        is_fresh_id(r@),
{
    uuid::Uuid::new_v4().simple().to_string()
}

/// The three temporary paths owned by one conversion run.
pub struct ConvertTempPaths {
    pub config_path: String,
    pub input_path: String,
    pub output_path: String,
}

/// Mathematical model of a workspace: the three paths as character
/// sequences.
pub struct ConvertTempPathsV {
    pub config_path: Seq<char>,
    pub input_path: Seq<char>,
    pub output_path: Seq<char>,
}

impl View for ConvertTempPaths {
    type V = ConvertTempPathsV;

    open spec fn view(&self) -> ConvertTempPathsV {
        ConvertTempPathsV {
            config_path: self.config_path@,
            input_path: self.input_path@,
            output_path: self.output_path@,
        }
    }
}

/// The config path derived from a temp root and an identifier.
pub open spec fn config_path_view(root: Seq<char>, id: Seq<char>) -> Seq<char> {
    root + "/tmp_native_config_"@ + id + ".xml"@
}

/// The input path derived from a temp root and an identifier.
pub open spec fn input_path_view(root: Seq<char>, id: Seq<char>) -> Seq<char> {
    root + "/tmp_native_input_"@ + id
}

/// The output path derived from a temp root and an identifier.
pub open spec fn output_path_view(root: Seq<char>, id: Seq<char>) -> Seq<char> {
    root + "/tmp_native_output_"@ + id + ".pdf"@
}

/// The whole workspace derived from a temp root and an identifier.
pub open spec fn workspace_view(root: Seq<char>, id: Seq<char>) -> ConvertTempPathsV {
    ConvertTempPathsV {
        config_path: config_path_view(root, id),
        input_path: input_path_view(root, id),
        output_path: output_path_view(root, id),
    }
}

/// Derive the three sibling paths for one conversion run from the temp
/// root and the run's identifier.
pub fn temp_paths_for_id(temp_dir: &str, id: &str) -> (r: ConvertTempPaths)
    ensures
        r@ == workspace_view(temp_dir@, id@),
{
    let mut config_path = String::from_str(temp_dir);
    config_path.append("/tmp_native_config_");
    config_path.append(id);
    config_path.append(".xml");
    let mut input_path = String::from_str(temp_dir);
    input_path.append("/tmp_native_input_");
    input_path.append(id);
    let mut output_path = String::from_str(temp_dir);
    output_path.append("/tmp_native_output_");
    output_path.append(id);
    output_path.append(".pdf");
    let r = ConvertTempPaths { config_path, input_path, output_path };
    proof {
        assert(r@.config_path =~= config_path_view(temp_dir@, id@));
        assert(r@.input_path =~= input_path_view(temp_dir@, id@));
        assert(r@.output_path =~= output_path_view(temp_dir@, id@));
    }
    r
}

/// Allocate a collision-free workspace under `temp_dir`: a fresh random
/// identifier and the three paths derived from it. Does not itself create
/// any file.
pub fn create_convert_temp_paths(temp_dir: &str) -> (r: ConvertTempPaths)
    ensures
        exists|id: Seq<char>|
            #[trigger] is_fresh_id(id) && r@ == workspace_view(temp_dir@, id),
{
    let id = fresh_hex_id();
    let r = temp_paths_for_id(temp_dir, id.as_str());
    proof {
        assert(is_fresh_id(id@) && r@ == workspace_view(temp_dir@, id@));
    }
    r
}

/// Two sequences embedded between the same prefix and suffix, with the
/// same length, are equal whenever the concatenations are.
proof fn lemma_affix_cancel(pre: Seq<char>, x: Seq<char>, y: Seq<char>, suf: Seq<char>)
    requires
        x.len() == y.len(),
        pre + x + suf == pre + y + suf,
    ensures
        x == y,
{
    assert forall|j: int| 0 <= j < x.len() implies x[j] == y[j] by {
        assert((pre + x + suf)[pre.len() + j] == x[j]);
        assert((pre + y + suf)[pre.len() + j] == y[j]);
    }
    assert(x =~= y);
}

/// Two sequences after the same prefix, with the same length, are equal
/// whenever the concatenations are.
proof fn lemma_prefix_cancel(pre: Seq<char>, x: Seq<char>, y: Seq<char>)
    requires
        x.len() == y.len(),
        pre + x == pre + y,
    ensures
        x == y,
{
    assert forall|j: int| 0 <= j < x.len() implies x[j] == y[j] by {
        assert((pre + x)[pre.len() + j] == x[j]);
        assert((pre + y)[pre.len() + j] == y[j]);
    }
    assert(x =~= y);
}

/// Law: paths of different roles never coincide, whatever identifiers of
/// equal length they carry — the config, input and output paths differ in
/// length or in a fixed character of their name.
pub proof fn lemma_role_paths_distinct(root: Seq<char>, ida: Seq<char>, idb: Seq<char>)
    requires
        ida.len() == idb.len(),
    ensures
        config_path_view(root, ida) != input_path_view(root, idb),
        config_path_view(root, ida) != output_path_view(root, idb),
        input_path_view(root, ida) != output_path_view(root, idb),
{
    reveal_strlit("/tmp_native_config_");
    reveal_strlit("/tmp_native_input_");
    reveal_strlit("/tmp_native_output_");
    reveal_strlit(".xml");
    reveal_strlit(".pdf");
    assert(config_path_view(root, ida).len() == root.len() + 23 + ida.len());
    assert(input_path_view(root, idb).len() == root.len() + 18 + idb.len());
    assert(output_path_view(root, idb).len() == root.len() + 23 + idb.len());
    if config_path_view(root, ida) == output_path_view(root, idb) {
        assert(config_path_view(root, ida)[root.len() as int + 12] == 'c');
        assert(output_path_view(root, idb)[root.len() as int + 12] == 'o');
        assert(false);
    }
}

/// Law: idempotence of path allocation. Workspaces allocated from the
/// same temp root with distinct identifiers share no path at all: the six
/// paths of the two triples are pairwise distinct.
pub proof fn lemma_distinct_ids_no_collision(root: Seq<char>, id1: Seq<char>, id2: Seq<char>)
    requires
        id1.len() == id2.len(),
        id1 != id2,
    ensures
        config_path_view(root, id1) != config_path_view(root, id2),
        input_path_view(root, id1) != input_path_view(root, id2),
        output_path_view(root, id1) != output_path_view(root, id2),
        config_path_view(root, id1) != input_path_view(root, id2),
        config_path_view(root, id1) != output_path_view(root, id2),
        input_path_view(root, id1) != output_path_view(root, id2),
        input_path_view(root, id1) != config_path_view(root, id2),
        output_path_view(root, id1) != config_path_view(root, id2),
        output_path_view(root, id1) != input_path_view(root, id2),
{
    if config_path_view(root, id1) == config_path_view(root, id2) {
        lemma_affix_cancel(root + "/tmp_native_config_"@, id1, id2, ".xml"@);
    }
    if input_path_view(root, id1) == input_path_view(root, id2) {
        lemma_prefix_cancel(root + "/tmp_native_input_"@, id1, id2);
    }
    if output_path_view(root, id1) == output_path_view(root, id2) {
        lemma_affix_cancel(root + "/tmp_native_output_"@, id1, id2, ".pdf"@);
    }
    lemma_role_paths_distinct(root, id1, id2);
    lemma_role_paths_distinct(root, id2, id1);
}

/// Law: within one workspace the three paths are pairwise distinct.
pub proof fn lemma_workspace_paths_distinct(root: Seq<char>, id: Seq<char>)
    ensures
        config_path_view(root, id) != input_path_view(root, id),
        config_path_view(root, id) != output_path_view(root, id),
        input_path_view(root, id) != output_path_view(root, id),
{
    lemma_role_paths_distinct(root, id, id);
}

} // verus!
