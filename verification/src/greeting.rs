use vstd::prelude::*;
use vstd::string::StringExecFns;

verus! {

/// Whether `part` occurs contiguously inside `text`.
pub open spec fn occurs_in(text: Seq<char>, part: Seq<char>) -> bool {
    exists|i: int|
        0 <= i && i + part.len() <= text.len() && #[trigger] text.subrange(i, i + part.len())
            == part
}

/// Returns a greeting that embeds the supplied name: the name occurs
/// in the returned string, between a fixed salutation and a closing mark.
pub fn greeting(name: &str) -> (result: String)
    ensures
        result@ == "Hello, "@ + name@ + "!"@,
        occurs_in(result@, name@),
{
    let mut result: String = "Hello, ".to_owned();
    result.append(name);
    result.append("!");
    proof {
        let prefix = "Hello, "@;
        let i = prefix.len() as int;
        assert(result@.subrange(i, i + name@.len()) =~= name@);
    }
    result
}

} // verus!
