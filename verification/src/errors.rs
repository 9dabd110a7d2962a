//! Errors of kild operations, kept per branch.
use vstd::prelude::*;
use crate::strmap::StrMap;
use crate::text::owned;

verus! {

/// An error from an operation on a kild's branch.
#[derive(Clone, Debug)]
pub struct OperationError {
    /// The branch the operation was for.
    pub branch: String,
    /// What went wrong.
    pub message: String,
}

/// The content of an operation error.
pub struct ErrorView {
    pub branch: Seq<char>,
    pub message: Seq<char>,
}

impl View for OperationError {
    type V = ErrorView;

    open spec fn view(&self) -> ErrorView {
        ErrorView { branch: self.branch@, message: self.message@ }
    }
}

/// The errors of kild operations, at most one per branch name.
#[derive(Debug)]
pub struct OperationErrors {
    by_branch: StrMap<OperationError>,
}

impl View for OperationErrors {
    type V = Map<Seq<char>, ErrorView>;

    closed spec fn view(&self) -> Map<Seq<char>, ErrorView> {
        self.by_branch@.map_values(|e: OperationError| e@)
    }
}

impl Default for OperationErrors {
    fn default() -> (r: OperationErrors)
        ensures
            r@ == Map::<Seq<char>, ErrorView>::empty(),
    {
        let r = OperationErrors { by_branch: StrMap::new() };
        assert(r@ =~= Map::<Seq<char>, ErrorView>::empty());
        r
    }
}

impl OperationErrors {
    /// An empty collection.
    pub fn new() -> (r: OperationErrors)
        ensures
            r@ == Map::<Seq<char>, ErrorView>::empty(),
    {
        OperationErrors::default()
    }

    /// Records `error` for `branch`, replacing any error it had.
    pub fn set(&mut self, branch: &str, error: OperationError)
        ensures
            final(self)@ == old(self)@.insert(branch@, error@),
    {
        let ghost e = error;
        self.by_branch.insert(branch, error);
        assert(self@ =~= old(self)@.insert(branch@, e@));
    }

    /// The error recorded for `branch`, if any.
    pub fn get(&self, branch: &str) -> (r: Option<&OperationError>)
        ensures
            match r {
                Some(e) => self@.contains_key(branch@) && self@[branch@] == e@,
                None => !self@.contains_key(branch@),
            },
    {
        self.by_branch.get(branch)
    }

    /// Records `message` as the error of an operation on `branch`.
    pub fn record(&mut self, branch: &str, message: &str)
        ensures
            final(self)@ == old(self)@.insert(branch@, ErrorView { branch: branch@, message: message@ }),
    {
        self.set(branch, OperationError { branch: owned(branch), message: owned(message) });
    }

    /// Forgets the error recorded for `branch`, if any.
    pub fn clear(&mut self, branch: &str)
        ensures
            final(self)@ == old(self)@.remove(branch@),
    {
        self.by_branch.remove(branch);
        assert(self@ =~= old(self)@.remove(branch@));
    }
}

/// Reading a branch after recording an error for it gives that error, and
/// recording for one branch leaves every other branch as it was.
pub proof fn lemma_set_then_get(
    errors: Map<Seq<char>, ErrorView>,
    branch: Seq<char>,
    e: ErrorView,
    other: Seq<char>,
)
    ensures
        errors.insert(branch, e).contains_key(branch),
        errors.insert(branch, e)[branch] == e,
        other != branch ==> {
            &&& errors.insert(branch, e).contains_key(other) == errors.contains_key(other)
            &&& errors.contains_key(other) ==> errors.insert(branch, e)[other] == errors[other]
        },
{
}

/// Reading a branch after clearing it gives nothing, and clearing one
/// branch leaves every other branch as it was.
pub proof fn lemma_clear_then_get(errors: Map<Seq<char>, ErrorView>, branch: Seq<char>, other: Seq<char>)
    ensures
        !errors.remove(branch).contains_key(branch),
        other != branch ==> {
            &&& errors.remove(branch).contains_key(other) == errors.contains_key(other)
            &&& errors.contains_key(other) ==> errors.remove(branch)[other] == errors[other]
        },
{
}

/// Clearing a branch undoes recording an error for it when it had none
/// before, and clearing twice is the same as clearing once.
pub proof fn lemma_clear_undoes_set(errors: Map<Seq<char>, ErrorView>, branch: Seq<char>, e: ErrorView)
    ensures
        !errors.contains_key(branch) ==> errors.insert(branch, e).remove(branch) == errors,
        errors.remove(branch).remove(branch) == errors.remove(branch),
{
    assert(!errors.contains_key(branch) ==> errors.insert(branch, e).remove(branch) =~= errors);
    assert(errors.remove(branch).remove(branch) =~= errors.remove(branch));
}

} // verus!
