//! The laws the converter keeps, stated over the same spec functions the
//! executable contracts use, and proved from them.
//!
//! Whether bytes decode rests with the codec and its runtime-mutable
//! hooks, so the laws about conversion outcomes are stated over the
//! decode outcome — the value the codec handed back — not over the bytes.

use vstd::prelude::*;
use crate::convert::{encode_result, finish_post, spec_event_for, Conversion};
use crate::mode::TargetFormat;
use crate::paths::{
    is_last_dot, lemma_last_dot_unique, plan_post, spec_extension, spec_skip_eligible,
    spec_with_extension, Plan,
};
use crate::summary::{converted_delta, skipped_delta, Event};
use crate::text::seq_eq_ci;

verus! {

/// A file whose extension already matches the target is only ever
/// skipped: its plan is `SkipExisting`, whose event adds one to `skipped`
/// and nothing to `converted`. No plan but `Candidate` carries an output
/// name, so no write can concern such a file.
pub proof fn lemma_matching_extension_only_skips(name: Seq<char>, target: Seq<char>, p: Plan)
    requires
        plan_post(true, name, target, p),
        spec_skip_eligible(name, target),
    ensures
        p is SkipExisting,
        skipped_delta(Event::SkippedExisting) == 1,
        converted_delta(Event::SkippedExisting) == 0,
{
}

/// A directory entry that is not a regular file is never planned for
/// conversion and its event moves neither counter.
pub proof fn lemma_non_file_untouched(name: Seq<char>, target: Seq<char>, p: Plan)
    requires
        plan_post(false, name, target, p),
    ensures
        p is NotFile,
        converted_delta(Event::NotRegular) == 0,
        skipped_delta(Event::NotRegular) == 0,
{
}

/// A file the codec does not recognize ends as `NotAnImage`, whatever the
/// mode: the event moves neither counter, and no such outcome carries
/// output bytes or a diagnostic, so nothing is written and nothing is
/// reported.
pub proof fn lemma_unrecognized_silent(
    decoded: Option<image::DynamicImage>,
    format: TargetFormat,
    dry_run: bool,
    r: Conversion,
)
    requires
        finish_post(decoded, format, dry_run, r),
        decoded is None,
    ensures
        r is NotAnImage,
        forall|wrote: bool| spec_event_for(r, wrote) == Event::NotAnImage,
        converted_delta(Event::NotAnImage) == 0,
        skipped_delta(Event::NotAnImage) == 0,
{
}

/// A dry run never produces output bytes: no outcome of it is `Done`, and
/// only the bytes of a `Done` outcome are ever written.
pub proof fn lemma_dry_run_writes_nothing(
    decoded: Option<image::DynamicImage>,
    format: TargetFormat,
    r: Conversion,
)
    requires
        finish_post(decoded, format, true, r),
    ensures
        !(r is Done),
        !(r is Failed),
{
}

/// For one file, a dry run and a real run move the `converted` counter
/// alike, provided the codec recognized the file alike in both runs and
/// the real run's encode and write did not fail (on a file whose encode
/// or write fails, the real run counts nothing while the dry run counts
/// one). Summed over a directory, the dry run hence reports the converted
/// count the real run would.
pub proof fn lemma_dry_run_counts_match(
    decoded: Option<image::DynamicImage>,
    format: TargetFormat,
    dry: Conversion,
    wet: Conversion,
    wrote: bool,
)
    requires
        finish_post(decoded, format, true, dry),
        finish_post(decoded, format, false, wet),
        !(wet is Failed),
        wet is Done ==> wrote,
    ensures
        converted_delta(spec_event_for(dry, true)) == converted_delta(
            spec_event_for(wet, wrote),
        ),
        skipped_delta(spec_event_for(dry, true)) == skipped_delta(spec_event_for(wet, wrote)),
{
}

/// A file that decoded, re-encoded and was written counts as exactly one
/// conversion and no skip, and its payload is exactly what the encoder
/// produces for the decoded image in the target format.
pub proof fn lemma_successful_conversion_counted(
    decoded: Option<image::DynamicImage>,
    format: TargetFormat,
    r: Conversion,
    wrote: bool,
)
    requires
        finish_post(decoded, format, false, r),
        r is Done,
        wrote,
    ensures
        decoded is Some,
        decoded matches Some(img) ==> encode_result(img, format) is Some,
        r matches Conversion::Done(b) ==> (decoded matches Some(img) && Some(b@)
            == encode_result(img, format)),
        spec_event_for(r, wrote) == Event::Converted,
        converted_delta(Event::Converted) == 1,
        skipped_delta(Event::Converted) == 0,
{
}

/// The output name built for a conversion candidate carries exactly the
/// target extension (the target extension holds no dot), so the produced
/// sibling file is skip-eligible on any later run.
pub proof fn lemma_output_name_has_target_extension(name: Seq<char>, target: Seq<char>)
    requires
        name.len() > 0,
        forall|j: int| 0 <= j < target.len() ==> target[j] != '.',
    ensures
        spec_extension(spec_with_extension(name, target)) == Some(target),
        spec_skip_eligible(spec_with_extension(name, target), target),
{
    let out = spec_with_extension(name, target);
    let prefix: Seq<char> = if exists|i: int| is_last_dot(name, i) && i > 0 {
        let i = choose|i: int| is_last_dot(name, i) && i > 0;
        name.subrange(0, i)
    } else {
        name
    };
    assert(out == prefix + seq!['.'] + target);
    let d = prefix.len() as int;
    assert(d > 0);
    assert(out[d] == '.');
    assert(forall|j: int| d < j < out.len() ==> out[j] == target[j - d - 1]);
    assert(is_last_dot(out, d));
    let k = choose|i: int| is_last_dot(out, i);
    lemma_last_dot_unique(out, k, d);
    assert(out.subrange(d + 1, out.len() as int) =~= target);
    assert(seq_eq_ci(target, target));
}

} // verus!
