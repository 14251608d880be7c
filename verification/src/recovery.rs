use vstd::prelude::*;

verus! {

/// Which relational table a bulk recovery streams vectors from.
#[derive(Clone, Copy, PartialEq, Eq, Structural)]
pub enum TableKind {
    Tags,
    Chunks,
}

/// Chooses the recovery query. Tag vectors are recovered whole; chunk
/// vectors only under a grouping filter, so a chunk recovery without one
/// selects nothing and the caller recovers zero rows.
pub fn recovery_query(kind: TableKind, has_filter: bool) -> (r: Option<&'static str>)
    ensures
        kind is Tags ==> (r matches Some(q) && q@
            == "SELECT id, vector FROM tags WHERE vector IS NOT NULL"@),
        kind is Chunks && has_filter ==> (r matches Some(q) && q@
            == "SELECT c.id, c.vector FROM chunks c JOIN files f ON c.file_id = f.id WHERE f.diary_name = ?1 AND c.vector IS NOT NULL"@),
        kind is Chunks && !has_filter ==> r is None,
        r is Some <==> (kind is Tags || has_filter),
{
    match kind {
        TableKind::Tags => Some("SELECT id, vector FROM tags WHERE vector IS NOT NULL"),
        TableKind::Chunks => {
            if has_filter {
                Some(
                    "SELECT c.id, c.vector FROM chunks c JOIN files f ON c.file_id = f.id WHERE f.diary_name = ?1 AND c.vector IS NOT NULL",
                )
            } else {
                None
            }
        },
    }
}

} // verus!
