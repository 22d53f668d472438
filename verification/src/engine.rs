//! The calls into git2. Nothing in this file is proved: each function hands
//! its arguments to git2 and its contract is taken on trust. Where a call
//! touches the disk or the network, the contract promises nothing about the
//! outcome.

use vstd::prelude::*;
use crate::object_id::{hash_bytes, well_formed_hash, ObjectId};
use crate::request::MergeAdvice;

verus! {

/// git2's handle to a repository on disk. Nothing is known of what is inside.
#[verifier::external_type_specification]
#[verifier::external_body]
pub struct ExRepository(git2::Repository);

/// git2's error value. Nothing is known of what is inside.
#[verifier::external_type_specification]
#[verifier::external_body]
pub struct ExError(git2::Error);

/// `git2::Error`'s `to_string`: the text that git2 gives for an error.
/// Nothing is claimed of the text.
#[verifier::external_body]
pub(crate) fn describe(error: &git2::Error) -> (text: String) {
    error.to_string()
}

/// `git2::Repository::open` on `path`. Nothing is claimed of the outcome: it
/// depends on what the directory holds.
#[verifier::external_body]
pub(crate) fn open_repository(path: &str) -> (result: Result<git2::Repository, git2::Error>) {
    git2::Repository::open(path)
}

/// `git2::build::RepoBuilder::clone`, with `branch` as the branch to check
/// out. `RepoBuilder::branch` panics on a name that holds a NUL character, so
/// such a name is not admitted. Nothing is claimed of the outcome.
#[verifier::external_body]
pub(crate) fn clone_repository(url: &str, path: &str, branch: &str) -> (result: Result<
    git2::Repository,
    git2::Error,
>)
    requires
        !branch@.contains('\0'),
{
    git2::build::RepoBuilder::new().branch(branch).clone(url, std::path::Path::new(path))
}

/// `git2::Remote::fetch` of the one refspec `branch`, with default options,
/// on the remote that `git2::Repository::find_remote` gives for `remote`.
/// Nothing is claimed of the outcome.
#[verifier::external_body]
pub(crate) fn fetch(repository: &git2::Repository, remote: &str, branch: &str) -> (result: Result<
    (),
    git2::Error,
>) {
    repository.find_remote(remote)?.fetch(&[branch], None, None)
}

/// `git2::Repository::refname_to_id`: the commit that the reference named
/// `reference` leads to. Nothing is claimed of the outcome.
#[verifier::external_body]
pub(crate) fn reference_target(repository: &git2::Repository, reference: &str) -> (result: Result<
    ObjectId,
    git2::Error,
>) {
    repository.refname_to_id(reference).map(
        |oid|
            {
                let mut bytes = [0u8; 20];
                bytes.copy_from_slice(oid.as_bytes());
                ObjectId::from_bytes(bytes)
            },
    )
}

/// `git2::Repository::merge_analysis` of the one commit `commit`, looked up
/// with `find_annotated_commit`; of the flags that come back, the three that
/// the library reads. Nothing is claimed of the outcome.
#[verifier::external_body]
pub(crate) fn merge_analysis(repository: &git2::Repository, commit: &ObjectId) -> (result: Result<
    MergeAdvice,
    git2::Error,
>) {
    let theirs = repository.find_annotated_commit(git2::Oid::from_bytes(&commit.bytes())?)?;
    let (analysis, _) = repository.merge_analysis(&[&theirs])?;
    Ok(MergeAdvice {
        up_to_date: analysis.is_up_to_date(),
        fast_forward: analysis.is_fast_forward(),
        normal: analysis.is_normal(),
    })
}

/// `git2::Repository::checkout_tree` on the object that `find_object` gives
/// for `commit`, with a `CheckoutBuilder` on which `force` is set, so that git2
/// overwrites what the working tree holds. Nothing is claimed of the outcome.
#[verifier::external_body]
pub(crate) fn checkout_commit(repository: &git2::Repository, commit: &ObjectId) -> (result: Result<
    (),
    git2::Error,
>) {
    let object = repository.find_object(git2::Oid::from_bytes(&commit.bytes())?, None)?;
    repository.checkout_tree(&object, Some(git2::build::CheckoutBuilder::new().force()))
}

/// `git2::Repository::reference`: creates the direct reference `reference`
/// with `commit` as its target; `force` says whether an existing reference of
/// that name is overwritten. Nothing is claimed of the outcome.
#[verifier::external_body]
pub(crate) fn set_reference(
    repository: &git2::Repository,
    reference: &str,
    commit: &ObjectId,
    force: bool,
    log_message: &str,
) -> (result: Result<(), git2::Error>) {
    let oid = git2::Oid::from_bytes(&commit.bytes())?;
    repository.reference(reference, oid, force, log_message).map(|_| ())
}

/// `git2::Repository::merge_commits` of the commits that `find_commit` gives
/// for `ours` and `theirs`, with default options. The result is the tree that
/// `git2::Index::write_tree_to` writes for the merged index. Nothing is
/// claimed of the outcome.
#[verifier::external_body]
pub(crate) fn merge_commits(repository: &git2::Repository, ours: &ObjectId, theirs: &ObjectId) -> (result:
    Result<ObjectId, git2::Error>) {
    let ours = repository.find_commit(git2::Oid::from_bytes(&ours.bytes())?)?;
    let theirs = repository.find_commit(git2::Oid::from_bytes(&theirs.bytes())?)?;
    let tree = repository.merge_commits(&ours, &theirs, None)?.write_tree_to(repository)?;
    let mut bytes = [0u8; 20];
    bytes.copy_from_slice(tree.as_bytes());
    Ok(ObjectId::from_bytes(bytes))
}

/// `git2::Repository::commit` of the tree that `find_tree` gives for `tree`,
/// with the commits that `find_commit` gives for `ours` and `theirs` as
/// parents, in this order, the signature that `git2::Repository::signature`
/// gives as author and committer, and no reference to update. The result is
/// the new commit. Nothing is claimed of the outcome.
#[verifier::external_body]
pub(crate) fn commit_merge(
    repository: &git2::Repository,
    tree: &ObjectId,
    ours: &ObjectId,
    theirs: &ObjectId,
    message: &str,
) -> (result: Result<ObjectId, git2::Error>) {
    let tree = repository.find_tree(git2::Oid::from_bytes(&tree.bytes())?)?;
    let ours = repository.find_commit(git2::Oid::from_bytes(&ours.bytes())?)?;
    let theirs = repository.find_commit(git2::Oid::from_bytes(&theirs.bytes())?)?;
    let author = repository.signature()?;
    let merged = repository.commit(None, &author, &author, message, &tree, &[&ours, &theirs])?;
    let mut bytes = [0u8; 20];
    bytes.copy_from_slice(merged.as_bytes());
    Ok(ObjectId::from_bytes(bytes))
}

/// `git2::Oid::from_str`. It succeeds exactly on one to forty hexadecimal
/// digits, and then gives the identifier whose bytes hold the digits two by
/// two, high half first, with zeros after the last digit.
#[verifier::external_body]
pub(crate) fn parse_commit_id(text: &str) -> (result: Result<ObjectId, git2::Error>)
    ensures
        result is Ok <==> well_formed_hash(text@),
        result matches Ok(id) ==> id@ == hash_bytes(text@),
{
    git2::Oid::from_str(text).map(
        |oid|
            {
                let mut bytes = [0u8; 20];
                bytes.copy_from_slice(oid.as_bytes());
                ObjectId::from_bytes(bytes)
            },
    )
}

/// `git2::Repository::set_head_detached`. Nothing is claimed of the outcome.
#[verifier::external_body]
pub(crate) fn detach_head(repository: &git2::Repository, commit: &ObjectId) -> (result: Result<
    (),
    git2::Error,
>) {
    repository.set_head_detached(git2::Oid::from_bytes(&commit.bytes())?)
}

/// `git2::Repository::revparse_ext` on `revision`. Of what it finds, the
/// reference is kept: `None` where no reference leads to the revision, else
/// what `git2::Reference::name` gives for it, which is `None` for a name that
/// is not UTF-8. Nothing is claimed of the outcome.
#[verifier::external_body]
pub(crate) fn resolve_reference(repository: &git2::Repository, revision: &str) -> (result: Result<
    Option<Option<String>>,
    git2::Error,
>) {
    let (_, reference) = repository.revparse_ext(revision)?;
    Ok(reference.map(|reference| reference.name().map(|name| name.to_owned())))
}

/// `git2::Repository::set_head`. Nothing is claimed of the outcome.
#[verifier::external_body]
pub(crate) fn attach_head(repository: &git2::Repository, reference: &str) -> (result: Result<
    (),
    git2::Error,
>) {
    repository.set_head(reference)
}

/// `git2::Repository::checkout_head` with default options. Nothing is claimed
/// of the outcome.
#[verifier::external_body]
pub(crate) fn checkout_head(repository: &git2::Repository) -> (result: Result<(), git2::Error>) {
    repository.checkout_head(None)
}

} // verus!
