//! Where the ledger database lives.
use vstd::prelude::*;

verus! {

/// Name of the ledger database directory under the base directory.
pub const MOVE_DB_DIR: &'static str = ".move-chain-data";

/// `base_dir`, a slash, then `subdir_name`.
pub open spec fn joined(base_dir: Seq<char>, subdir_name: Seq<char>) -> Seq<char> {
    base_dir + seq!['/'] + subdir_name
}

/// The ledger database path under `base_dir`.
pub open spec fn ledger_path(base_dir: Seq<char>) -> Seq<char> {
    joined(base_dir, MOVE_DB_DIR@)
}

/// Joins a base directory and the name of a directory inside it.
pub fn resolve_path(base_dir: &str, subdir_name: &str) -> (r: String)
    ensures
        r@ == joined(base_dir@, subdir_name@),
{
    let mut out = String::from_str(base_dir);
    proof {
        reveal_strlit("/");
    }
    out.append("/");
    out.append(subdir_name);
    out
}

/// The path of the ledger database under `base_dir`.
pub fn ledger_db_path(base_dir: &str) -> (r: String)
    ensures
        r@ == ledger_path(base_dir@),
{
    resolve_path(base_dir, MOVE_DB_DIR)
}

} // verus!
