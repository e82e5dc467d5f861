//! `tinty build`: building every installed template and summing up. The
//! building itself (by `tinted_builder_rust`) and printing is the caller's.
use crate::text::{cat, cat3, join, join_strings, u64_to_decimal, views};
use vstd::prelude::*;

verus! {

/// How building one item went.
pub enum BuildOutcome {
    /// The item is not installed.
    NotInstalled,
    /// It was built.
    Built,
    /// Building failed; holds the builder's explanation.
    Failed(String),
}

/// The failure recorded for item `name`, if its build did not succeed.
pub open spec fn failure_of(name: Seq<char>, o: BuildOutcome) -> Option<Seq<char>> {
    match o {
        BuildOutcome::NotInstalled => Some(name + " not installed (run `tinty install`)"@),
        BuildOutcome::Built => None,
        BuildOutcome::Failed(e) => Some(name + ": "@ + e@),
    }
}

/// The failures of the first `n` items, in order.
pub open spec fn failures(names: Seq<Seq<char>>, outcomes: Seq<BuildOutcome>, n: int) -> Seq<Seq<char>>
    decreases n,
{
    if n <= 0 {
        Seq::empty()
    } else {
        let rest = failures(names, outcomes, n - 1);
        match failure_of(names[n - 1], outcomes[n - 1]) {
            Some(f) => rest.push(f),
            None => rest,
        }
    }
}

/// What is printed for one item as it is dealt with (nothing when quiet):
/// on standard output when it was built, on standard error otherwise.
pub fn build_item_message(name: &str, outcome: &BuildOutcome) -> (res: String)
    ensures
        res@ == match *outcome {
            BuildOutcome::NotInstalled => name@ + " not installed (run `tinty install`)"@,
            BuildOutcome::Built => name@ + " built"@,
            BuildOutcome::Failed(e) => name@ + " failed to build: "@ + e@,
        },
{
    match outcome {
        BuildOutcome::NotInstalled => cat(name, " not installed (run `tinty install`)"),
        BuildOutcome::Built => cat(name, " built"),
        BuildOutcome::Failed(e) => cat3(name, " failed to build: ", e.as_str()),
    }
}

/// Why building failed as a whole.
pub enum BuildError {
    /// No items are configured.
    NoItems,
    /// Some items failed; holds the message.
    Failed(String),
}

/// The outcome of building items `names` (one outcome each): with no
/// items, an error; with no failure, the closing notice
/// `Built <n> item(s)`; otherwise the failures counted and listed.
pub fn build_summary(names: &Vec<String>, outcomes: &Vec<BuildOutcome>) -> (res: Result<String, BuildError>)
    requires
        names.len() == outcomes.len(),
    ensures
        names.len() == 0 ==> res matches Err(BuildError::NoItems),
        names.len() > 0 && failures(views(names@), outcomes@, names.len() as int).len() == 0 ==> (res matches Ok(m)
            && m@ == "Built "@ + crate::text::decimal(names.len() as nat) + " item(s)"@),
        names.len() > 0 && failures(views(names@), outcomes@, names.len() as int).len() > 0 ==> (res matches Err(BuildError::Failed(m))
            && m@ == "Failed to build "@ + crate::text::decimal(failures(views(names@), outcomes@, names.len() as int).len()) + " of "@
                + crate::text::decimal(names.len() as nat) + " item(s):\n"@ + join(failures(views(names@), outcomes@, names.len() as int), seq!['\n'])),
{
    let n = names.len();
    if n == 0 {
        return Err(BuildError::NoItems);
    }
    let mut fails: Vec<String> = Vec::new();
    let mut i: usize = 0;
    while i < n
        invariant
            n == names.len(),
            n == outcomes.len(),
            i <= n,
            views(fails@) == failures(views(names@), outcomes@, i as int),
        decreases n - i,
    {
        let ghost before = views(fails@);
        assert(views(names@)[i as int] == names@[i as int]@);
        match &outcomes[i] {
            BuildOutcome::NotInstalled => {
                fails.push(cat(names[i].as_str(), " not installed (run `tinty install`)"));
                assert(views(fails@) =~= before.push(names@[i as int]@ + " not installed (run `tinty install`)"@));
            },
            BuildOutcome::Built => {},
            BuildOutcome::Failed(e) => {
                fails.push(cat3(names[i].as_str(), ": ", e.as_str()));
                assert(views(fails@) =~= before.push(names@[i as int]@ + ": "@ + e@));
            },
        }
        i = i + 1;
    }
    assert(views(fails@).len() == fails@.len());
    let total = u64_to_decimal(n as u64);
    if fails.len() == 0 {
        return Ok(cat3("Built ", total.as_str(), " item(s)"));
    }
    let count = u64_to_decimal(fails.len() as u64);
    let mut m = cat3("Failed to build ", count.as_str(), " of ");
    m.append(total.as_str());
    m.append(" item(s):\n");
    proof {
        reveal_strlit("\n");
        assert("\n"@ =~= seq!['\n']);
    }
    let listed = join_strings(&fails, "\n");
    m.append(listed.as_str());
    Err(BuildError::Failed(m))
}

} // verus!
