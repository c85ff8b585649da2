//! The accelerated backend, as far as the host decides: what is handed to the
//! device, and in which order the work is done.
//!
//! The device computes in single precision, so ids and densities travel as
//! single-precision numbers. The library writes their bit patterns itself, and
//! refuses what has no exact pattern.

use crate::classifier::saturated;
use crate::config::{GeneratorData, Settings, MAX_DENSITY};
use crate::single::{is_pattern_of, pattern_of, EXACT_LIMIT};
use crate::sphere::Sphere;
use vstd::prelude::*;

verus! {

/// The number of values that stand for one sphere in the transfer buffer.
pub const SPHERE_VALUES: usize = 6;

/// What the kernel is called with: the three scalar arguments, the sizes of
/// the grid, the transfer buffer of the spheres, and the number of voxels,
/// which is the size of the work and of each of the two buffers that come
/// back.
#[derive(Clone, Debug)]
pub struct KernelArguments {
    pub empty_space: u32,
    pub noise_span: u32,
    pub sphere_count: i32,
    pub dims: [u32; 3],
    pub spheres: Vec<u32>,
    pub voxel_count: usize,
}

/// Why a volume cannot be handed to the device.
#[derive(Clone, Copy, Debug, PartialEq, Eq, Structural)]
pub enum TransferError {
    /// A size of the grid does not fit in 32 bits.
    DimensionTooLarge,
    /// The number of voxels does not fit in `usize`.
    VolumeTooLarge,
    /// The number of spheres does not fit in a signed 32-bit number.
    TooManySpheres,
    /// The sphere at this place has an id or a density that is negative or not
    /// below `EXACT_LIMIT`, the limit below which every whole number is a
    /// single-precision number.
    Inexact(usize),
}

/// Whether id and density of the sphere have exact patterns.
pub open spec fn is_exact(sphere: Sphere) -> bool {
    0 <= sphere.id() < EXACT_LIMIT && sphere.density() < EXACT_LIMIT
}

/// Whether `buffer` is the transfer buffer of the spheres: six values for each
/// sphere, in the order of the set: the three coordinates of the origin, the
/// radius, the id and the density, all as bit patterns.
pub open spec fn is_sphere_buffer(buffer: Seq<u32>, spheres: Seq<Sphere>) -> bool {
    &&& buffer.len() == SPHERE_VALUES * spheres.len()
    &&& forall|s: int|
        #![trigger spheres[s]]
        0 <= s < spheres.len() ==> {
            &&& buffer[SPHERE_VALUES * s] == spheres[s].spec_origin().x
            &&& buffer[SPHERE_VALUES * s + 1] == spheres[s].spec_origin().y
            &&& buffer[SPHERE_VALUES * s + 2] == spheres[s].spec_origin().z
            &&& buffer[SPHERE_VALUES * s + 3] == spheres[s].radius()
            &&& is_pattern_of(buffer[SPHERE_VALUES * s + 4], spheres[s].id() as nat)
            &&& is_pattern_of(buffer[SPHERE_VALUES * s + 5], spheres[s].density() as nat)
        }
}

/// The first reason for which the volume cannot be handed to the device, if
/// there is one.
pub open spec fn transfer_fault(settings: Settings, spheres: Seq<Sphere>) -> Option<TransferError> {
    let dims = settings.pixel_dimensions;
    if dims.x > u32::MAX || dims.y > u32::MAX || dims.z > u32::MAX {
        Some(TransferError::DimensionTooLarge)
    } else if dims.product() > usize::MAX {
        Some(TransferError::VolumeTooLarge)
    } else if spheres.len() > i32::MAX {
        Some(TransferError::TooManySpheres)
    } else if exists|s: int| 0 <= s < spheres.len() && !is_exact(#[trigger] spheres[s]) {
        let first = choose|s: int|
            0 <= s < spheres.len() && !is_exact(#[trigger] spheres[s]) && forall|t: int|
                0 <= t < s ==> is_exact(#[trigger] spheres[t]);
        Some(TransferError::Inexact(first as usize))
    } else {
        None
    }
}

/// The transfer buffer of the spheres, or the place of the first sphere
/// without exact patterns.
pub fn sphere_buffer(spheres: &Vec<Sphere>) -> (r: Result<Vec<u32>, usize>)
    ensures
        match r {
            Ok(buffer) => is_sphere_buffer(buffer@, spheres@) && forall|s: int|
                0 <= s < spheres.len() ==> is_exact(#[trigger] spheres[s]),
            Err(first) => 0 <= first < spheres.len() && !is_exact(spheres[first as int])
                && forall|t: int| 0 <= t < first ==> is_exact(#[trigger] spheres[t]),
        },
{
    let mut buffer: Vec<u32> = Vec::new();
    let mut s: usize = 0;
    while s < spheres.len()
        invariant
            s <= spheres.len(),
            is_sphere_buffer(buffer@, spheres@.take(s as int)),
            forall|t: int| 0 <= t < s ==> is_exact(#[trigger] spheres[t]),
        decreases spheres.len() - s,
    {
        let sphere = spheres[s];
        let id = sphere.id();
        let density = sphere.density();
        if id < 0 || id >= EXACT_LIMIT as i32 || density >= EXACT_LIMIT {
            return Err(s);
        }
        buffer.push(sphere.origin().x);
        buffer.push(sphere.origin().y);
        buffer.push(sphere.origin().z);
        buffer.push(sphere.radius());
        buffer.push(pattern_of(id as u32));
        buffer.push(pattern_of(density));
        s += 1;
    }
    assert(spheres@.take(s as int) =~= spheres@);
    Ok(buffer)
}

/// Whether `arguments` is what the kernel is called with for the settings and
/// the spheres.
pub open spec fn are_arguments(
    arguments: KernelArguments,
    settings: Settings,
    spheres: Seq<Sphere>,
) -> bool {
    &&& arguments.empty_space == settings.empty_space
    &&& arguments.noise_span == settings.noise_span
    &&& arguments.sphere_count == spheres.len()
    &&& arguments.dims@ == seq![
        settings.pixel_dimensions.x as u32,
        settings.pixel_dimensions.y as u32,
        settings.pixel_dimensions.z as u32,
    ]
    &&& is_sphere_buffer(arguments.spheres@, spheres)
    &&& arguments.voxel_count == settings.pixel_dimensions.product()
}

/// What the kernel is called with for this volume. It fails exactly where
/// `transfer_fault` names a reason, with that reason.
pub fn kernel_arguments(gen_data: &GeneratorData, spheres: &Vec<Sphere>) -> (r: Result<
    KernelArguments,
    TransferError,
>)
    ensures
        match r {
            Ok(arguments) => transfer_fault(gen_data@, spheres@) is None && are_arguments(
                arguments,
                gen_data@,
                spheres@,
            ),
            Err(e) => transfer_fault(gen_data@, spheres@) == Some(e),
        },
{
    let dims = gen_data.pixel_dimensions;
    if dims.x > u32::MAX as usize || dims.y > u32::MAX as usize || dims.z > u32::MAX as usize {
        return Err(TransferError::DimensionTooLarge);
    }
    let voxel_count = match dims.volume() {
        Some(count) => count,
        None => {
            return Err(TransferError::VolumeTooLarge);
        },
    };
    if spheres.len() > i32::MAX as usize {
        return Err(TransferError::TooManySpheres);
    }
    match sphere_buffer(spheres) {
        Err(first) => {
            Err(TransferError::Inexact(first))
        },
        Ok(buffer) => {
            let sizes: [u32; 3] = [dims.x as u32, dims.y as u32, dims.z as u32];
            Ok(
                KernelArguments {
                    empty_space: gen_data.empty_space,
                    noise_span: gen_data.noise_span,
                    sphere_count: spheres.len() as i32,
                    dims: sizes,
                    spheres: buffer,
                    voxel_count,
                },
            )
        },
    }
}

/// Where a run on the device stands.
#[derive(Clone, Copy, Debug, PartialEq, Eq, Structural)]
pub enum Stage {
    /// Nothing is done yet.
    Uninitialized,
    /// Device, context and program are ready.
    Initialized,
    /// The sizes of the grid and the spheres are on the device.
    BuffersUploaded,
    /// The kernel is on its way, one unit of work for each voxel.
    KernelDispatched,
    /// Both arrays are back, each read after the kernel had ended.
    ResultsReadBack,
    /// The arrays are handed to the caller.
    Done,
    /// A piece of work has failed. Nothing follows.
    Failed,
}

/// The pieces of work of a run, in their order.
#[derive(Clone, Copy, Debug, PartialEq, Eq, Structural)]
pub enum Action {
    /// Take the first device of the first platform and build the program.
    Initialize,
    /// Write the sizes of the grid and the spheres to the device.
    UploadBuffers,
    /// Start the kernel.
    DispatchKernel,
    /// Read both arrays, each read waiting for the kernel, and wait for both.
    ReadResults,
    /// Hand the arrays to the caller.
    ReturnResults,
}

/// How a piece of work ended.
#[derive(Clone, Copy, Debug, PartialEq, Eq, Structural)]
pub enum Report {
    Completed,
    Failed,
}

impl Stage {
    /// The piece of work that is due at this stage, if the run goes on.
    pub open spec fn due(self) -> Option<Action> {
        match self {
            Stage::Uninitialized => Some(Action::Initialize),
            Stage::Initialized => Some(Action::UploadBuffers),
            Stage::BuffersUploaded => Some(Action::DispatchKernel),
            Stage::KernelDispatched => Some(Action::ReadResults),
            Stage::ResultsReadBack => Some(Action::ReturnResults),
            Stage::Done => None,
            Stage::Failed => None,
        }
    }

    /// The stage that follows when the piece of work that is due ends as
    /// reported. A run that is done or has failed stays as it is.
    pub open spec fn following(self, report: Report) -> Stage {
        match (self, report) {
            (Stage::Done, _) => Stage::Done,
            (Stage::Failed, _) => Stage::Failed,
            (_, Report::Failed) => Stage::Failed,
            (Stage::Uninitialized, Report::Completed) => Stage::Initialized,
            (Stage::Initialized, Report::Completed) => Stage::BuffersUploaded,
            (Stage::BuffersUploaded, Report::Completed) => Stage::KernelDispatched,
            (Stage::KernelDispatched, Report::Completed) => Stage::ResultsReadBack,
            (Stage::ResultsReadBack, Report::Completed) => Stage::Done,
        }
    }

    /// The number of pieces of work that have been completed at this stage.
    pub open spec fn progress(self) -> nat {
        match self {
            Stage::Uninitialized => 0,
            Stage::Initialized => 1,
            Stage::BuffersUploaded => 2,
            Stage::KernelDispatched => 3,
            Stage::ResultsReadBack => 4,
            Stage::Done => 5,
            Stage::Failed => 0,
        }
    }

    /// The stage after the reports, taken one after the other.
    pub open spec fn after_all(self, reports: Seq<Report>) -> Stage
        decreases reports.len(),
    {
        if reports.len() == 0 {
            self
        } else {
            self.following(reports[0]).after_all(reports.drop_first())
        }
    }

    /// The piece of work that is due at this stage.
    pub fn next_action(&self) -> (action: Option<Action>)
        ensures
            action == self.due(),
    {
        match self {
            Stage::Uninitialized => Some(Action::Initialize),
            Stage::Initialized => Some(Action::UploadBuffers),
            Stage::BuffersUploaded => Some(Action::DispatchKernel),
            Stage::KernelDispatched => Some(Action::ReadResults),
            Stage::ResultsReadBack => Some(Action::ReturnResults),
            Stage::Done => None,
            Stage::Failed => None,
        }
    }

    /// The stage that follows the report on the piece of work that was due.
    pub fn advance(&self, report: Report) -> (next: Stage)
        ensures
            next == self.following(report),
    {
        match self {
            Stage::Done => Stage::Done,
            Stage::Failed => Stage::Failed,
            _ => match report {
                Report::Failed => Stage::Failed,
                Report::Completed => match self {
                    Stage::Uninitialized => Stage::Initialized,
                    Stage::Initialized => Stage::BuffersUploaded,
                    Stage::BuffersUploaded => Stage::KernelDispatched,
                    Stage::KernelDispatched => Stage::ResultsReadBack,
                    _ => Stage::Done,
                },
            },
        }
    }

    /// A failure is final: whatever is reported afterwards, the run has failed.
    pub proof fn lemma_failure_is_final(reports: Seq<Report>)
        ensures
            Stage::Failed.after_all(reports) == Stage::Failed,
        decreases reports.len(),
    {
        if reports.len() > 0 {
            Self::lemma_failure_is_final(reports.drop_first());
        }
    }

    /// A run that is done stays done.
    pub proof fn lemma_done_is_final(reports: Seq<Report>)
        ensures
            Stage::Done.after_all(reports) == Stage::Done,
        decreases reports.len(),
    {
        if reports.len() > 0 {
            Self::lemma_done_is_final(reports.drop_first());
        }
    }

    /// No stage is skipped and none is repeated: a run that has not failed
    /// has completed one piece of work for each report, five at most, and a
    /// run is done exactly when five are completed. A run that has failed
    /// was handed a failure before five pieces were completed.
    pub proof fn lemma_stages_in_order(self, reports: Seq<Report>)
        requires
            self != Stage::Failed,
        ensures
            self.after_all(reports) != Stage::Failed ==> self.after_all(reports).progress() == if self.progress()
                + reports.len() <= 5 {
                self.progress() + reports.len()
            } else {
                5
            },
            self.after_all(reports) == Stage::Failed <==> exists|i: int|
                0 <= i < reports.len() && i + self.progress() < 5 && reports[i] == Report::Failed,
            self.after_all(reports) == Stage::Done <==> self.after_all(reports).progress() == 5,
        decreases reports.len(),
    {
        if reports.len() > 0 {
            let next = self.following(reports[0]);
            let rest = reports.drop_first();
            if next == Stage::Failed {
                Self::lemma_failure_is_final(rest);
            } else {
                next.lemma_stages_in_order(rest);
                if next.after_all(rest) != Stage::Failed {
                    assert forall|i: int|
                        0 <= i < reports.len() && i + self.progress() < 5 implies reports[i]
                        != Report::Failed by {
                        if i > 0 {
                            assert(reports[i] == rest[i - 1]);
                        }
                    }
                }
            }
        }
    }
}

impl Action {
    /// The number of pieces of work that come before this one.
    pub open spec fn rank(self) -> nat {
        match self {
            Action::Initialize => 0,
            Action::UploadBuffers => 1,
            Action::DispatchKernel => 2,
            Action::ReadResults => 3,
            Action::ReturnResults => 4,
        }
    }
}

/// Why the accelerated backend gave no volume.
#[derive(Clone, Copy, Debug, PartialEq, Eq, Structural)]
pub enum AcceleratedError {
    /// The volume cannot be handed to the device.
    Transfer(TransferError),
    /// This piece of work on the device failed.
    Device(Action),
    /// An array that came back holds more or fewer entries than there are
    /// voxels.
    ResultSize,
}

/// Whether each of the first `count` pieces of work on the device can be
/// reported as completed.
pub open spec fn can_complete<W: Fn(Action, &KernelArguments) -> Report>(
    work: W,
    arguments: KernelArguments,
    count: nat,
) -> bool {
    forall|action: Action|
        #![trigger action.rank()]
        action.rank() < count && action.rank() < 4 ==> work.ensures(
            (action, &arguments),
            Report::Completed,
        )
}

/// The densities that came back, each held to the range of densities.
pub open spec fn held_densities(raw: Seq<u32>) -> Seq<u32> {
    Seq::new(raw.len(), |i: int| saturated(raw[i] as i64))
}

/// Whether the run on the device that `work` and `results` stand for can end
/// in `r`. The four pieces of work on the device are done in their order, each
/// once, with the arguments of the kernel; the first that fails ends the run.
/// After the four the arrays are taken from `results`: where both hold one
/// entry for each voxel they are the volume, the densities held to their
/// range.
pub open spec fn is_run<
    W: Fn(Action, &KernelArguments) -> Report,
    R: Fn() -> (Vec<i32>, Vec<u32>),
>(
    settings: Settings,
    spheres: Seq<Sphere>,
    work: W,
    results: R,
    arguments: KernelArguments,
    r: Result<(Vec<i32>, Vec<u32>), AcceleratedError>,
) -> bool {
    let count = settings.pixel_dimensions.product();
    &&& are_arguments(arguments, settings, spheres)
    &&& match r {
        Err(AcceleratedError::Transfer(_)) => false,
        Err(AcceleratedError::Device(action)) => {
            &&& action.rank() < 4
            &&& can_complete(work, arguments, action.rank())
            &&& work.ensures((action, &arguments), Report::Failed)
        },
        Err(AcceleratedError::ResultSize) => {
            &&& can_complete(work, arguments, 4)
            &&& exists|raw: (Vec<i32>, Vec<u32>)|
                #[trigger] results.ensures((), raw) && !(raw.0.len() == count && raw.1.len()
                    == count)
        },
        Ok(textures) => {
            &&& can_complete(work, arguments, 4)
            &&& exists|raw: (Vec<i32>, Vec<u32>)|
                {
                    &&& #[trigger] results.ensures((), raw)
                    &&& raw.0.len() == count
                    &&& raw.1.len() == count
                    &&& textures.0@ == raw.0@
                    &&& textures.1@ == held_densities(raw.1@)
                }
        },
    }
}

/// Holds every density to the range of densities.
fn hold_densities(densities: &mut Vec<u32>)
    ensures
        final(densities)@ == held_densities(old(densities)@),
{
    let mut i: usize = 0;
    while i < densities.len()
        invariant
            i <= densities.len(),
            densities.len() == old(densities).len(),
            forall|k: int| 0 <= k < i ==> densities@[k] == saturated(old(densities)@[k] as i64),
            forall|k: int| i <= k < densities.len() ==> densities@[k] == old(densities)@[k],
        decreases densities.len() - i,
    {
        if densities[i] > MAX_DENSITY {
            densities.set(i, MAX_DENSITY);
        }
        i += 1;
    }
}

/// The accelerated backend, as far as the host decides. `work` does a piece
/// of work on the device and reports how it ended; `results` hands over the
/// two arrays that were read back, materials first.
///
/// A volume that cannot be handed to the device is refused with the reason
/// that `transfer_fault` names, and nothing is done on the device. Else the
/// outcome is a run, as `is_run` says.
pub fn generate_volume_textures_cl<
    W: Fn(Action, &KernelArguments) -> Report,
    R: Fn() -> (Vec<i32>, Vec<u32>),
>(gen_data: &GeneratorData, spheres: &Vec<Sphere>, work: &W, results: &R) -> (r: Result<
    (Vec<i32>, Vec<u32>),
    AcceleratedError,
>)
    requires
        forall|action: Action, arguments: &KernelArguments| work.requires((action, arguments)),
        results.requires(()),
    ensures
        match transfer_fault(gen_data@, spheres@) {
            Some(e) => r == Err::<(Vec<i32>, Vec<u32>), AcceleratedError>(
                AcceleratedError::Transfer(e),
            ),
            None => exists|arguments: KernelArguments| #[trigger]
                is_run(gen_data@, spheres@, *work, *results, arguments, r),
        },
{
    let arguments = match kernel_arguments(gen_data, spheres) {
        Ok(arguments) => arguments,
        Err(e) => {
            return Err(AcceleratedError::Transfer(e));
        },
    };
    let mut stage = Stage::Uninitialized;
    while stage != Stage::ResultsReadBack
        invariant
            stage != Stage::Failed,
            stage != Stage::Done,
            transfer_fault(gen_data@, spheres@) is None,
            are_arguments(arguments, gen_data@, spheres@),
            can_complete(*work, arguments, stage.progress()),
            forall|action: Action, arguments: &KernelArguments| work.requires((action, arguments)),
            results.requires(()),
        decreases 4 - stage.progress(),
    {
        let action = match stage.next_action() {
            Some(action) => action,
            None => Action::ReturnResults,
        };
        let report = work(action, &arguments);
        let next = stage.advance(report);
        if next == Stage::Failed {
            let r = Err(AcceleratedError::Device(action));
            assert(is_run(gen_data@, spheres@, *work, *results, arguments, r));
            return r;
        }
        stage = next;
    }
    let raw = results();
    if raw.0.len() != arguments.voxel_count || raw.1.len() != arguments.voxel_count {
        let r = Err(AcceleratedError::ResultSize);
        assert(is_run(gen_data@, spheres@, *work, *results, arguments, r));
        return r;
    }
    let (materials, mut densities) = raw;
    hold_densities(&mut densities);
    let r = Ok((materials, densities));
    assert(is_run(gen_data@, spheres@, *work, *results, arguments, r));
    r
}

} // verus!
