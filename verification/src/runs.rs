//! Whole runs of the two machines: what is requested, one request after the
//! other, as the replies come in.
use crate::go::{
    archive_name, endpoint_of, install_step, is_success, removal_prompt, uninstall_step,
    InstallParamView, InstallState, OperationError, Reply, RequestView, UninstallParamView,
    UninstallState,
};
use crate::outside::debug_rendering;
use crate::Os;
use vstd::prelude::*;

verus! {

/// The requests that an installation makes from `state` on, one for each
/// reply.
pub open spec fn install_run(
    base: Seq<char>,
    staging: Seq<char>,
    param: InstallParamView,
    state: InstallState,
    replies: Seq<Reply>,
) -> Seq<RequestView>
    decreases replies.len(),
{
    if replies.len() == 0 {
        Seq::empty()
    } else {
        let step = install_step(base, staging, param, state, replies[0]);
        seq![step.1] + install_run(base, staging, param, step.0, replies.drop_first())
    }
}

/// The requests that a removal makes from `state` on, one for each reply.
pub open spec fn uninstall_run(
    param: UninstallParamView,
    state: UninstallState,
    replies: Seq<Reply>,
) -> Seq<RequestView>
    decreases replies.len(),
{
    if replies.len() == 0 {
        Seq::empty()
    } else {
        let step = uninstall_step(param, state, replies[0]);
        seq![step.1] + uninstall_run(param, step.0, replies.drop_first())
    }
}

/// A finished installation requests nothing but the report of its result,
/// whatever the replies.
pub proof fn lemma_install_stays_finished(
    base: Seq<char>,
    staging: Seq<char>,
    param: InstallParamView,
    result: Result<(), OperationError>,
    replies: Seq<Reply>,
)
    ensures
        install_run(base, staging, param, InstallState::Finished(result), replies).len()
            == replies.len(),
        forall|i: int|
            0 <= i < replies.len() ==> #[trigger] install_run(
                base,
                staging,
                param,
                InstallState::Finished(result),
                replies,
            )[i] == RequestView::Report(result),
    decreases replies.len(),
{
    if replies.len() > 0 {
        lemma_install_stays_finished(base, staging, param, result, replies.drop_first());
    }
}

/// A finished removal requests nothing but the report of its result,
/// whatever the replies.
pub proof fn lemma_uninstall_stays_finished(
    param: UninstallParamView,
    result: Result<(), OperationError>,
    replies: Seq<Reply>,
)
    ensures
        uninstall_run(param, UninstallState::Finished(result), replies).len() == replies.len(),
        forall|i: int|
            0 <= i < replies.len() ==> #[trigger] uninstall_run(
                param,
                UninstallState::Finished(result),
                replies,
            )[i] == RequestView::Report(result),
    decreases replies.len(),
{
    if replies.len() > 0 {
        lemma_uninstall_stays_finished(param, result, replies.drop_first());
    }
}

/// Declining is no removal: where the prompt is not skipped and the user
/// answers no, the removal asks the user, then only reports success; it
/// never requests the removal of anything.
pub proof fn lemma_uninstall_declined(param: UninstallParamView, replies: Seq<Reply>)
    requires
        !param.skip_remove_prompt,
        replies.len() >= 2,
        replies[1] == Reply::Answer(false),
    ensures
        uninstall_run(param, UninstallState::Starting, replies).len() == replies.len(),
        uninstall_run(param, UninstallState::Starting, replies)[0] == RequestView::Confirm(
            removal_prompt(debug_rendering(param.go_root)),
        ),
        forall|i: int|
            1 <= i < replies.len() ==> #[trigger] uninstall_run(
                param,
                UninstallState::Starting,
                replies,
            )[i] == RequestView::Report(Ok(())),
{
    let rest = replies.drop_first();
    let tail = rest.drop_first();
    lemma_uninstall_stays_finished(param, Ok(()), tail);
    let run = uninstall_run(param, UninstallState::Starting, replies);
    let run1 = uninstall_run(param, UninstallState::Confirming, rest);
    let run2 = uninstall_run(param, UninstallState::Finished(Ok(())), tail);
    assert(rest[0] == replies[1]);
    assert(run1 == seq![RequestView::Report(Ok(()))] + run2);
    assert(run == seq![
        RequestView::Confirm(removal_prompt(debug_rendering(param.go_root))),
    ] + run1);
    assert forall|i: int| 1 <= i < replies.len() implies #[trigger] run[i] == RequestView::Report(
        Ok(()),
    ) by {
        assert(run[i] == run1[i - 1]);
        if i >= 2 {
            assert(run1[i - 1] == run2[i - 2]);
        }
    }
}

/// Skipping the prompt: the user is never asked, and the removal of the
/// root directory is requested exactly once, as the first request; what
/// follows is the report of how it went.
pub proof fn lemma_uninstall_skipping_prompt(param: UninstallParamView, replies: Seq<Reply>)
    requires
        param.skip_remove_prompt,
        replies.len() >= 1,
    ensures
        uninstall_run(param, UninstallState::Starting, replies).len() == replies.len(),
        uninstall_run(param, UninstallState::Starting, replies)[0]
            == RequestView::RemoveDirectory(param.go_root),
        forall|i: int|
            1 <= i < replies.len() ==> #[trigger] uninstall_run(
                param,
                UninstallState::Starting,
                replies,
            )[i] is Report,
        replies.len() >= 2 && replies[1] == Reply::Done ==> uninstall_run(
            param,
            UninstallState::Starting,
            replies,
        )[1] == RequestView::Report(Ok(())),
{
    let rest = replies.drop_first();
    let run = uninstall_run(param, UninstallState::Starting, replies);
    let run1 = uninstall_run(param, UninstallState::Removing, rest);
    assert(run == seq![RequestView::RemoveDirectory(param.go_root)] + run1);
    if rest.len() > 0 {
        let tail = rest.drop_first();
        let step = uninstall_step(param, UninstallState::Removing, rest[0]);
        let result = step.0->Finished_0;
        assert(step.0 == UninstallState::Finished(result));
        assert(step.1 == RequestView::Report(result));
        lemma_uninstall_stays_finished(param, result, tail);
        let run2 = uninstall_run(param, step.0, tail);
        assert(run1 == seq![step.1] + run2);
        assert(rest[0] == replies[1]);
        assert forall|i: int| 1 <= i < replies.len() implies #[trigger] run[i] is Report by {
            assert(run[i] == run1[i - 1]);
            if i >= 2 {
                assert(run1[i - 1] == run2[i - 2]);
            }
        }
    } else {
        assert(run1.len() == 0);
    }
}

/// The installation that meets no failure: it asks for the platform,
/// fetches the endpoint, stores the body at the staging path, creates the
/// destination, extracts the staged archive into it, removes the staged
/// archive, and reports success, in this order.
pub proof fn lemma_install_succeeds(
    base: Seq<char>,
    staging: Seq<char>,
    param: InstallParamView,
    first: Reply,
    os: Os,
    status: u16,
)
    requires
        is_success(status),
        endpoint_of(base, archive_name(param.version, os, param.arch)) is Some,
    ensures
        install_run(
            base,
            staging,
            param,
            InstallState::Starting,
            seq![
                first,
                Reply::Platform(Some(os)),
                Reply::Status(status),
                Reply::Done,
                Reply::Done,
                Reply::Done,
                Reply::Done,
            ],
        ) == seq![
            RequestView::DetectPlatform,
            RequestView::Fetch(
                endpoint_of(base, archive_name(param.version, os, param.arch))->Some_0,
            ),
            RequestView::Store(staging),
            RequestView::CreateDirectory(param.dest),
            RequestView::Extract(staging, param.dest),
            RequestView::RemoveFile(staging),
            RequestView::Report(Ok(())),
        ],
{
    let r0 = seq![
        first,
        Reply::Platform(Some(os)),
        Reply::Status(status),
        Reply::Done,
        Reply::Done,
        Reply::Done,
        Reply::Done,
    ];
    let r1 = r0.drop_first();
    let r2 = r1.drop_first();
    let r3 = r2.drop_first();
    let r4 = r3.drop_first();
    let r5 = r4.drop_first();
    let r6 = r5.drop_first();
    let r7 = r6.drop_first();
    assert(r7.len() == 0);
    assert(install_run(base, staging, param, InstallState::Finished(Ok(())), r7) =~= Seq::empty());
    let run6 = install_run(base, staging, param, InstallState::Cleaning, r6);
    assert(run6 =~= seq![RequestView::Report(Ok(()))]);
    let run5 = install_run(base, staging, param, InstallState::Extracting, r5);
    assert(run5 =~= seq![RequestView::RemoveFile(staging)] + run6);
    let run4 = install_run(base, staging, param, InstallState::Preparing, r4);
    assert(run4 =~= seq![RequestView::Extract(staging, param.dest)] + run5);
    let run3 = install_run(base, staging, param, InstallState::Storing, r3);
    assert(run3 =~= seq![RequestView::CreateDirectory(param.dest)] + run4);
    let run2 = install_run(base, staging, param, InstallState::Fetching, r2);
    assert(run2 =~= seq![RequestView::Store(staging)] + run3);
    let run1 = install_run(base, staging, param, InstallState::Resolving, r1);
    let url = endpoint_of(base, archive_name(param.version, os, param.arch))->Some_0;
    assert(run1 =~= seq![RequestView::Fetch(url)] + run2);
    let run0 = install_run(base, staging, param, InstallState::Starting, r0);
    assert(run0 =~= seq![RequestView::DetectPlatform] + run1);
}

/// A status other than success ends the installation: the step fails with
/// `DownloadFailed` of that status, and whatever replies follow, nothing is
/// requested any more but the report of that failure; so nothing is
/// stored, extracted or removed.
pub proof fn lemma_install_aborts_on_status(
    base: Seq<char>,
    staging: Seq<char>,
    param: InstallParamView,
    status: u16,
    later: Seq<Reply>,
)
    requires
        !is_success(status),
    ensures
        install_run(
            base,
            staging,
            param,
            InstallState::Fetching,
            seq![Reply::Status(status)] + later,
        ).len() == later.len() + 1,
        forall|i: int|
            0 <= i <= later.len() ==> #[trigger] install_run(
                base,
                staging,
                param,
                InstallState::Fetching,
                seq![Reply::Status(status)] + later,
            )[i] == RequestView::Report(Err(OperationError::DownloadFailed(status))),
{
    let replies = seq![Reply::Status(status)] + later;
    let failure: Result<(), OperationError> = Err(OperationError::DownloadFailed(status));
    assert(replies.drop_first() =~= later);
    lemma_install_stays_finished(base, staging, param, failure, later);
    let run = install_run(base, staging, param, InstallState::Fetching, replies);
    let rest = install_run(base, staging, param, InstallState::Finished(failure), later);
    assert(run == seq![RequestView::Report(failure)] + rest);
    assert forall|i: int| 0 <= i <= later.len() implies #[trigger] run[i] == RequestView::Report(
        failure,
    ) by {
        if i >= 1 {
            assert(run[i] == rest[i - 1]);
        }
    }
}

/// A run makes one request for each reply.
pub proof fn lemma_install_run_len(
    base: Seq<char>,
    staging: Seq<char>,
    param: InstallParamView,
    state: InstallState,
    replies: Seq<Reply>,
)
    ensures
        install_run(base, staging, param, state, replies).len() == replies.len(),
    decreases replies.len(),
{
    if replies.len() > 0 {
        let step = install_step(base, staging, param, state, replies[0]);
        lemma_install_run_len(base, staging, param, step.0, replies.drop_first());
    }
}

/// A run makes one request for each reply.
pub proof fn lemma_uninstall_run_len(
    param: UninstallParamView,
    state: UninstallState,
    replies: Seq<Reply>,
)
    ensures
        uninstall_run(param, state, replies).len() == replies.len(),
    decreases replies.len(),
{
    if replies.len() > 0 {
        let step = uninstall_step(param, state, replies[0]);
        lemma_uninstall_run_len(param, step.0, replies.drop_first());
    }
}

/// How many replies lie between a state and the request to extract, on the
/// way without failure; `None` for the states behind that request.
pub open spec fn steps_to_extraction(state: InstallState) -> Option<int> {
    match state {
        InstallState::Starting => Some(4),
        InstallState::Resolving => Some(3),
        InstallState::Fetching => Some(2),
        InstallState::Storing => Some(1),
        InstallState::Preparing => Some(0),
        _ => None,
    }
}

/// How many replies lie between a state and the reply to the fetch; `None`
/// for the states behind the fetch.
pub open spec fn steps_to_status(state: InstallState) -> Option<int> {
    match state {
        InstallState::Starting => Some(2),
        InstallState::Resolving => Some(1),
        InstallState::Fetching => Some(0),
        _ => None,
    }
}

/// Extraction is requested at one place only: after every step before it
/// has succeeded. Where the fetch lies inside the run, the status that
/// answered it was a success; and what is extracted is the staged archive,
/// into the destination.
pub proof fn lemma_extraction_requested(
    base: Seq<char>,
    staging: Seq<char>,
    param: InstallParamView,
    state: InstallState,
    replies: Seq<Reply>,
    i: int,
)
    requires
        0 <= i < replies.len(),
        install_run(base, staging, param, state, replies)[i] is Extract,
    ensures
        steps_to_extraction(state) == Some(i),
        install_run(base, staging, param, state, replies)[i] == RequestView::Extract(
            staging,
            param.dest,
        ),
        steps_to_status(state) matches Some(k) ==> (replies[k] matches Reply::Status(status)
            && is_success(status)),
    decreases replies.len(),
{
    let step = install_step(base, staging, param, state, replies[0]);
    let rest = replies.drop_first();
    let run = install_run(base, staging, param, state, replies);
    let later = install_run(base, staging, param, step.0, rest);
    lemma_install_run_len(base, staging, param, step.0, rest);
    assert(run == seq![step.1] + later);
    if i > 0 {
        assert(run[i] == later[i - 1]);
        lemma_extraction_requested(base, staging, param, step.0, rest, i - 1);
        if let Some(k) = steps_to_status(step.0) {
            assert(rest[k] == replies[k + 1]);
        }
    }
}

/// The removal of a directory is requested at one place only, and only for
/// the root directory: as the first request where the prompt is skipped,
/// and else right after the user has answered yes.
pub proof fn lemma_removal_requested(
    param: UninstallParamView,
    state: UninstallState,
    replies: Seq<Reply>,
    i: int,
)
    requires
        0 <= i < replies.len(),
        uninstall_run(param, state, replies)[i] is RemoveDirectory,
    ensures
        uninstall_run(param, state, replies)[i] == RequestView::RemoveDirectory(param.go_root),
        state is Starting || state is Confirming,
        state is Starting && param.skip_remove_prompt ==> i == 0,
        state is Starting && !param.skip_remove_prompt ==> i == 1 && replies[1] == Reply::Answer(
            true,
        ),
        state is Confirming ==> i == 0 && replies[0] == Reply::Answer(true),
    decreases replies.len(),
{
    let step = uninstall_step(param, state, replies[0]);
    let rest = replies.drop_first();
    let run = uninstall_run(param, state, replies);
    let later = uninstall_run(param, step.0, rest);
    lemma_uninstall_run_len(param, step.0, rest);
    assert(run == seq![step.1] + later);
    if i > 0 {
        assert(run[i] == later[i - 1]);
        lemma_removal_requested(param, step.0, rest, i - 1);
        assert(rest[0] == replies[1]);
    }
}

} // verus!
