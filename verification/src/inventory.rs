//! The three inventories of a site: posts, authors and assets.

use vstd::prelude::*;
use crate::builder::{Asset, CopyFile};
use crate::entry::{filter_entry, filtered, Entry};
use crate::error::FetchError;
use crate::gather::{
    fails_first_at, gather, gathered, holds, lemma_any_failure_fails, lemma_first_failure_decides,
    lemma_no_failure_keeps_all,
};
use crate::profile::{agrees, answer, fetch_user, reachable, sent, ProfileRequest, ProfileResponse};
use crate::records::{load_record, loaded, Author, FileLoad, Profile};

verus! {

/// The record that an entry gives: the entry is a file, and its content is
/// a record.
pub open spec fn record_of<T>(entry: Entry<FileLoad<T>>) -> Result<T, FetchError> {
    match filtered(entry) {
        Err(failure) => Err(failure),
        Ok((_, load)) => loaded(load),
    }
}

/// The asset that an entry gives: the entry is a file, to be copied from
/// its path.
pub open spec fn asset_of(entry: Entry<()>) -> Result<Asset, FetchError> {
    match filtered(entry) {
        Err(failure) => Err(failure),
        Ok((path, _)) => Ok(Asset::Other(CopyFile { path })),
    }
}

/// What a listing comes to when `item_of` says what each entry gives: the
/// failure of the listing itself, else the first failure among the entries,
/// else every item in the order of the listing.
pub open spec fn inventory<C, T>(
    listing: Result<Vec<Entry<C>>, std::io::Error>,
    item_of: spec_fn(Entry<C>) -> Result<T, FetchError>,
) -> Result<Seq<T>, FetchError> {
    match listing {
        Err(failure) => Err(FetchError::Io(failure)),
        Ok(entries) => gathered(entries@.map_values(item_of)),
    }
}

/// The records of a listing of a directory of records.
pub open spec fn records<T>(listing: Result<Vec<Entry<FileLoad<T>>>, std::io::Error>) -> Result<
    Seq<T>,
    FetchError,
> {
    inventory(listing, |entry: Entry<FileLoad<T>>| record_of(entry))
}

/// The assets of a listing of a directory of assets.
pub open spec fn assets(listing: Result<Vec<Entry<()>>, std::io::Error>) -> Result<
    Seq<Asset>,
    FetchError,
> {
    inventory(listing, |entry: Entry<()>| asset_of(entry))
}

/// The profiles that the responses hold, or the failures that they stand for.
pub open spec fn answers(responses: Seq<ProfileResponse>) -> Seq<Result<Profile, FetchError>> {
    responses.map_values(|response: ProfileResponse| answer(response))
}

/// The responses are what `fetch` may give when asked for the profile of
/// each author in turn, one request per author, until a response fails:
/// none is asked for behind a failure, and none is left out before one.
pub open spec fn asked_in_turn<F: Fn(&ProfileRequest) -> ProfileResponse>(
    fetch: &F,
    authors: Seq<Author>,
    responses: Seq<ProfileResponse>,
) -> bool {
    &&& responses.len() <= authors.len()
    &&& forall|at: int|
        0 <= at < responses.len() ==> sent(fetch, authors[at].meta.username@, #[trigger] responses[at])
    &&& forall|at: int| 0 <= at < responses.len() - 1 ==> (#[trigger] answers(responses)[at]) is Ok
    &&& responses.len() < authors.len() ==> responses.len() > 0 && answers(responses).last() is Err
}

/// `outcome` is what the responses make of the authors: the first failure
/// among the responses and no author, or every author with the profile of
/// the response at their place, and otherwise as they were.
pub open spec fn enriched(
    outcome: Result<Vec<Author>, FetchError>,
    authors: Seq<Author>,
    responses: Seq<ProfileResponse>,
) -> bool {
    match gathered(answers(responses)) {
        Err(failure) => outcome == Err::<Vec<Author>, FetchError>(failure),
        Ok(profiles) => {
            &&& outcome matches Ok(complete)
            &&& complete@.len() == authors.len()
            &&& profiles.len() == authors.len()
            &&& forall|at: int|
                0 <= at < authors.len() ==> (#[trigger] complete@[at]).enriches(
                    authors[at],
                    profiles[at],
                )
        },
    }
}

/// The post of one entry.
pub fn load_and_parse_post<P>(dir_entry: Entry<FileLoad<P>>) -> (post: Result<P, FetchError>)
    ensures
        post == record_of(dir_entry),
{
    match filter_entry(dir_entry) {
        Err(failure) => Err(failure),
        Ok((_, load)) => load_record(load),
    }
}

/// The author of one entry, as the file describes them.
pub fn load_and_parse_author(dir_entry: Entry<FileLoad<Author>>) -> (author: Result<
    Author,
    FetchError,
>)
    ensures
        author == record_of(dir_entry),
{
    match filter_entry(dir_entry) {
        Err(failure) => Err(failure),
        Ok((_, load)) => load_record(load),
    }
}

/// The asset of one entry.
pub fn collect_others(dir_entry: Entry<()>) -> (asset: Result<Asset, FetchError>)
    ensures
        asset == asset_of(dir_entry),
{
    match filter_entry(dir_entry) {
        Err(failure) => Err(failure),
        Ok((path, _)) => Ok(Asset::Other(CopyFile { path })),
    }
}

/// The posts of a listing of the posts directory: one per entry, in the
/// order of the listing, or the first failure and no post.
pub fn fetch_posts<P>(listing: Result<Vec<Entry<FileLoad<P>>>, std::io::Error>) -> (posts: Result<
    Vec<P>,
    FetchError,
>)
    ensures
        holds(posts, records(listing)),
{
    match listing {
        Err(failure) => Err(FetchError::Io(failure)),
        Ok(entries) => gather(
            entries,
            load_and_parse_post::<P>,
            Ghost(|entry: Entry<FileLoad<P>>| record_of(entry)),
        ),
    }
}

/// The assets of a listing of the assets directory: one per entry, in the
/// order of the listing, or the first failure and no asset.
pub fn fetch_assets(listing: Result<Vec<Entry<()>>, std::io::Error>) -> (collected: Result<
    Vec<Asset>,
    FetchError,
>)
    ensures
        holds(collected, assets(listing)),
{
    match listing {
        Err(failure) => Err(FetchError::Io(failure)),
        Ok(entries) => gather(entries, collect_others, Ghost(|entry: Entry<()>| asset_of(entry))),
    }
}

/// The authors of a listing of the authors directory, each with the profile
/// that `fetch` brought for them. First every entry gives its author, in
/// the order of the listing, or the first failure ends the call. Then
/// `fetch` is handed one request per author, in that order, and the first
/// response that fails ends the call with no author.
pub fn fetch_authors<F: Fn(&ProfileRequest) -> ProfileResponse>(
    listing: Result<Vec<Entry<FileLoad<Author>>>, std::io::Error>,
    fetch: F,
) -> (authors: Result<Vec<Author>, FetchError>)
    requires
        forall|username: Seq<char>| reachable(&fetch, username),
    ensures
        match records(listing) {
            Err(failure) => authors == Err::<Vec<Author>, FetchError>(failure),
            Ok(parsed) => exists|responses: Seq<ProfileResponse>|
                asked_in_turn(&fetch, parsed, responses) && #[trigger] enriched(
                    authors,
                    parsed,
                    responses,
                ),
        },
{
    let parsed = match listing {
        Err(failure) => { return Err(FetchError::Io(failure)); },
        Ok(entries) => match gather(
            entries,
            load_and_parse_author,
            Ghost(|entry: Entry<FileLoad<Author>>| record_of(entry)),
        ) {
            Err(failure) => { return Err(failure); },
            Ok(parsed) => parsed,
        },
    };
    let ghost mut responses: Seq<ProfileResponse> = Seq::empty();
    let mut complete: Vec<Author> = Vec::new();
    for author in walk: parsed
        invariant
            walk.seq() == parsed@,
            records(listing) == Ok::<Seq<Author>, FetchError>(parsed@),
            forall|username: Seq<char>| reachable(&fetch, username),
            responses.len() == walk.index(),
            complete@.len() == walk.index(),
            forall|at: int|
                0 <= at < walk.index() ==> sent(
                    &fetch,
                    parsed@[at].meta.username@,
                    #[trigger] responses[at],
                ),
            forall|at: int|
                0 <= at < walk.index() ==> ((#[trigger] answers(responses)[at]) matches Ok(profile)
                    && complete@[at].enriches(parsed@[at], profile)),
    {
        let ghost before = responses;
        let fetched = fetch_user(&author, &fetch);
        proof {
            let response = choose|response: ProfileResponse| #[trigger]
                sent(&fetch, author.meta.username@, response) && agrees(fetched, answer(response));
            responses = before.push(response);
            assert forall|at: int| 0 <= at < before.len() implies #[trigger] answers(responses)[at]
                == answers(before)[at] by {
                assert(responses[at] == before[at]);
            }
            assert(answers(responses)[before.len() as int] == answer(response));
        }
        match fetched {
            Err(failure) => {
                proof {
                    let failed = responses.len() - 1;
                    assert(fails_first_at(answers(responses), failed));
                    lemma_first_failure_decides(answers(responses), failed);
                    assert(asked_in_turn(&fetch, parsed@, responses));
                    assert(enriched(Err::<Vec<Author>, FetchError>(failure), parsed@, responses));
                    assert(records(listing) matches Ok(known) && known == parsed@);
                }
                return Err(failure);
            },
            Ok(github) => {
                complete.push(author.with_profile(github));
            },
        }
    }
    proof {
        lemma_no_failure_keeps_all(answers(responses));
        assert(asked_in_turn(&fetch, parsed@, responses));
        assert(enriched(Ok::<Vec<Author>, FetchError>(complete), parsed@, responses));
    }
    Ok(complete)
}

/// A directory that holds nothing but files with well-formed records gives
/// exactly one record per file: at each place the record of the file there.
pub proof fn lemma_well_formed_files_give_their_records<T>(entries: Vec<Entry<FileLoad<T>>>)
    requires
        forall|at: int|
            0 <= at < entries@.len() ==> (#[trigger] entries@[at]) matches Entry::File {
                content: FileLoad::Parsed(_),
                ..
            },
    ensures
        records(Ok(entries)) matches Ok(found) && found.len() == entries@.len() && forall|at: int|
            0 <= at < entries@.len() ==> (#[trigger] entries@[at])->File_content == FileLoad::Parsed(
                found[at],
            ),
{
    let outcomes = entries@.map_values(|entry: Entry<FileLoad<T>>| record_of(entry));
    assert forall|at: int| 0 <= at < outcomes.len() implies (#[trigger] outcomes[at]) is Ok by {
        assert(entries@[at] is File);
    }
    lemma_no_failure_keeps_all(outcomes);
    let found = gathered(outcomes)->Ok_0;
    assert forall|at: int| 0 <= at < entries@.len() implies (#[trigger] entries@[at])->File_content
        == FileLoad::Parsed(found[at]) by {
        assert(outcomes[at] == Ok::<T, FetchError>(found[at]));
    }
}

/// A file that does not parse ends the inventory in a parse error, with no
/// record, however many files around it are well formed, unless an entry
/// before it has failed in another way.
pub proof fn lemma_malformed_file_fails<T>(entries: Vec<Entry<FileLoad<T>>>, at: int)
    requires
        0 <= at < entries@.len(),
        entries@[at] matches Entry::File { content: FileLoad::Malformed(_), .. },
        forall|before: int|
            0 <= before < at ==> (#[trigger] record_of(entries@[before])) is Ok || record_of(
                entries@[before],
            ) matches Err(FetchError::Parse(_)),
    ensures
        records(Ok(entries)) matches Err(FetchError::Parse(_)),
{
    let outcomes = entries@.map_values(|entry: Entry<FileLoad<T>>| record_of(entry));
    assert(outcomes[at] is Err);
    lemma_any_failure_fails(outcomes, at);
    let first = choose|first: int| first <= at && #[trigger] fails_first_at(outcomes, first);
    lemma_first_failure_decides(outcomes, first);
    assert(outcomes[first] == record_of(entries@[first]));
}

/// A directory among the entries of a record directory ends the inventory in
/// an invalid-input error, unless an entry before it has failed in another way.
pub proof fn lemma_subdirectory_fails_records<T>(entries: Vec<Entry<FileLoad<T>>>, at: int)
    requires
        0 <= at < entries@.len(),
        entries@[at] is Directory,
        forall|before: int|
            0 <= before < at ==> (#[trigger] record_of(entries@[before])) is Ok || record_of(
                entries@[before],
            ) matches Err(FetchError::InvalidInput(_)),
    ensures
        records(Ok(entries)) matches Err(FetchError::InvalidInput(_)),
{
    let outcomes = entries@.map_values(|entry: Entry<FileLoad<T>>| record_of(entry));
    assert(outcomes[at] is Err);
    lemma_any_failure_fails(outcomes, at);
    let first = choose|first: int| first <= at && #[trigger] fails_first_at(outcomes, first);
    lemma_first_failure_decides(outcomes, first);
    assert(outcomes[first] == record_of(entries@[first]));
}

/// A directory among the entries of the assets directory ends the inventory
/// in an invalid-input error, unless an entry before it has failed in
/// another way.
pub proof fn lemma_subdirectory_fails_assets(entries: Vec<Entry<()>>, at: int)
    requires
        0 <= at < entries@.len(),
        entries@[at] is Directory,
        forall|before: int|
            0 <= before < at ==> (#[trigger] asset_of(entries@[before])) is Ok || asset_of(
                entries@[before],
            ) matches Err(FetchError::InvalidInput(_)),
    ensures
        assets(Ok(entries)) matches Err(FetchError::InvalidInput(_)),
{
    let outcomes = entries@.map_values(|entry: Entry<()>| asset_of(entry));
    assert(outcomes[at] is Err);
    lemma_any_failure_fails(outcomes, at);
    let first = choose|first: int| first <= at && #[trigger] fails_first_at(outcomes, first);
    lemma_first_failure_decides(outcomes, first);
    assert(outcomes[first] == asset_of(entries@[first]));
}

/// What stands behind the first entry that fails does not reach the result:
/// a scan may stop there.
pub proof fn lemma_scan_may_stop_at_failure<C, T>(
    entries: Seq<Entry<C>>,
    item_of: spec_fn(Entry<C>) -> Result<T, FetchError>,
    at: int,
)
    requires
        fails_first_at(entries.map_values(item_of), at),
    ensures
        gathered(entries.take(at + 1).map_values(item_of)) == gathered(entries.map_values(item_of)),
{
    lemma_first_failure_decides(entries.map_values(item_of), at);
    assert(entries.take(at + 1).map_values(item_of) =~= entries.map_values(item_of).take(at + 1));
}

/// One response that fails, for any author, leaves no author at all,
/// enriched or not.
pub proof fn lemma_failed_fetch_leaves_no_author(
    outcome: Result<Vec<Author>, FetchError>,
    authors: Seq<Author>,
    responses: Seq<ProfileResponse>,
    at: int,
)
    requires
        enriched(outcome, authors, responses),
        0 <= at < responses.len(),
        answer(responses[at]) is Err,
    ensures
        outcome is Err,
{
    lemma_any_failure_fails(answers(responses), at);
}

/// Where every response holds a profile, there is exactly one author per
/// parsed record: the record with that profile, and with nothing else changed.
pub proof fn lemma_profiles_complete_authors(
    outcome: Result<Vec<Author>, FetchError>,
    authors: Seq<Author>,
    responses: Seq<ProfileResponse>,
)
    requires
        enriched(outcome, authors, responses),
        forall|at: int| 0 <= at < responses.len() ==> answer(#[trigger] responses[at]) is Ok,
    ensures
        outcome matches Ok(complete) && complete@.len() == authors.len() && responses.len()
            == authors.len() && forall|at: int|
            0 <= at < authors.len() ==> (#[trigger] complete@[at]).enriches(
                authors[at],
                answer(responses[at])->Ok_0,
            ),
{
    let outcomes = answers(responses);
    assert forall|at: int| 0 <= at < outcomes.len() implies (#[trigger] outcomes[at]) is Ok by {
        assert(answer(responses[at]) is Ok);
    }
    lemma_no_failure_keeps_all(outcomes);
}

} // verus!
