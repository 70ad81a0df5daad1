//! Where the database lives.

use vstd::prelude::*;
use vstd::string::{StrSliceExecFns, StringExecFns};

verus! {

/// `path` with every `\` turned into `/`, as SQLite URLs want.
pub open spec fn with_forward_slashes(path: Seq<char>) -> Seq<char> {
    path.map_values(|c: char| if c == '\\' { '/' } else { c })
}

/// The connection URL of the database file at `db_path`: opened for
/// reading and writing, created when missing.
pub open spec fn sqlite_url_of(db_path: Seq<char>) -> Seq<char> {
    "sqlite:"@ + with_forward_slashes(db_path) + "?mode=rwc"@
}

/// The connection URL of the database file at `db_path`.
pub fn sqlite_url(db_path: &str) -> (url: String)
    ensures
        url@ == sqlite_url_of(db_path@),
{
    let mut url = String::from_str("sqlite:");
    let n = db_path.unicode_len();
    let mut i: usize = 0;
    while i < n
        invariant
            n == db_path@.len(),
            i <= n,
            url@ == "sqlite:"@ + with_forward_slashes(db_path@.take(i as int)),
        decreases n - i,
    {
        let c = db_path.get_char(i);
        let ghost before = url@;
        if c == '\\' {
            url.append("/");
            proof {
                reveal_strlit("/");
            }
            assert("/"@ =~= seq!['/']);
        } else {
            let piece = db_path.substring_char(i, i + 1);
            assert(piece@ =~= seq![c]);
            url.append(piece);
        }
        assert(url@ =~= before.push(if c == '\\' { '/' } else { c }));
        assert(with_forward_slashes(db_path@.take(i + 1)) =~= with_forward_slashes(
            db_path@.take(i as int),
        ).push(if c == '\\' { '/' } else { c }));
        assert(url@ =~= "sqlite:"@ + with_forward_slashes(db_path@.take(i + 1)));
        i = i + 1;
    }
    assert(db_path@.take(n as int) =~= db_path@);
    url.append("?mode=rwc");
    url
}

} // verus!
