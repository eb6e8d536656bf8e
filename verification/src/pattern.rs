//! Reading the options of a table or view out of the definition that MySQL reports for it.
use vstd::prelude::*;
use crate::form::opt_view;

verus! {

/// The text of each named group of `names` that a regular expression of the `regex` crate
/// with the pattern `pattern` captures at its first match in `text` (`None` for a group that
/// took no part in the match), or `None` when the pattern does not compile or does not match.
pub uninterp spec fn regex_captures(pattern: Seq<char>, text: Seq<char>, names: Seq<Seq<char>>) -> Option<Seq<Option<Seq<char>>>>;

/// The captures as text.
pub open spec fn captures_view(r: Option<Vec<Option<String>>>) -> Option<Seq<Option<Seq<char>>>> {
    match r {
        Some(v) => Some(v@.map_values(|o: Option<String>| opt_view(o))),
        None => None,
    }
}

/// Compiles `pattern` with `regex::Regex::new` and reads the named groups `names` of its first
/// match in `text` with `regex::Regex::captures` and `regex::Captures::name`. The contract
/// names the result (see `regex_captures`) and says that there is one text per name.
#[verifier::external_body]
fn named_captures(pattern: &str, text: &str, names: &Vec<&str>) -> (r: Option<Vec<Option<String>>>)
    ensures
        captures_view(r) == regex_captures(pattern@, text@, names@.map_values(|n: &str| n@)),
        r matches Some(v) ==> v@.len() == names@.len(),
{
    let re = regex::Regex::new(pattern).ok()?;
    let caps = re.captures(text)?;
    Some(names.iter().map(|n| caps.name(n).map(|m| m.as_str().to_string())).collect())
}

/// The pattern that reads the options out of the definition that `SHOW CREATE TABLE` reports.
pub const CREATE_TABLE_PATTERN: &'static str = r"CREATE\s+TABLE\s+`\w+`\s+\(\s*(.+\s)+\)\s*(ENGINE=(?P<engine>\w+)\s*)?((DEFAULT\s+)?CHARSET=(?P<charset>\w+)\s*)?((DEFAULT\s+)?COLLATE=(?P<collation>\w+)\s*)?(MIN_ROWS=(?P<min_rows>\w+)\s*)?(MAX_ROWS=(?P<max_rows>\w+)\s*)?(AVG_ROW_LENGTH=(?P<avg_row>\w+)\s*)?(KEY_BLOCK_SIZE=(?P<kbs>\w+)\s*)?(COMMENT='(?P<comment>\w+)'\s*)?";

/// The groups of the table pattern, in the order in which they are read.
pub open spec fn create_table_groups() -> Seq<Seq<char>> {
    seq!["engine"@, "charset"@, "collation"@, "min_rows"@, "max_rows"@, "avg_row"@, "kbs"@, "comment"@]
}

/// The options of a table read out of its definition `def` as `SHOW CREATE TABLE` reports it:
/// its engine, character set, collation, min rows, max rows, average row length, key block
/// size and comment, each when the definition gives it; `None` when the definition does not
/// match the pattern.
pub fn create_table_options(def: &str) -> (r: Option<Vec<Option<String>>>)
    ensures
        captures_view(r) == regex_captures(CREATE_TABLE_PATTERN@, def@, create_table_groups()),
        r matches Some(v) ==> v@.len() == 8,
{
    let names: Vec<&str> = vec!["engine", "charset", "collation", "min_rows", "max_rows", "avg_row", "kbs", "comment"];
    assert(names@.map_values(|n: &str| n@) =~= create_table_groups());
    named_captures(CREATE_TABLE_PATTERN, def, &names)
}

/// The pattern that reads the algorithm out of the definition that `SHOW CREATE VIEW` reports.
pub const CREATE_VIEW_PATTERN: &'static str = r"^CREATE\s(ALGORITHM=(?P<algorithm>MERGE|UNDEFINED|TEMPTABLE))?";

/// The algorithm of a view read out of its definition `def` as `SHOW CREATE VIEW` reports it:
/// `Some` with the algorithm when the definition gives one (or `None` inside when it does not),
/// `None` when the definition does not match the pattern.
pub fn create_view_algorithm(def: &str) -> (r: Option<Option<String>>)
    ensures
        match regex_captures(CREATE_VIEW_PATTERN@, def@, seq!["algorithm"@]) {
            Some(caps) => r matches Some(a) && opt_view(a) == caps[0],
            None => r is None,
        },
{
    let names: Vec<&str> = vec!["algorithm"];
    assert(names@.map_values(|n: &str| n@) =~= seq!["algorithm"@]);
    match named_captures(CREATE_VIEW_PATTERN, def, &names) {
        Some(v) => {
            let ghost caps = captures_view(Some(v));
            assert(caps->0[0] == opt_view(v@[0]));
            let a = match &v[0] {
                Some(s) => Some(s.clone()),
                None => None,
            };
            Some(a)
        },
        None => None,
    }
}

} // verus!
