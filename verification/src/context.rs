use vstd::prelude::*;
use crate::error::Error;

verus! {

/// Device selection for constructing an inference context, as plain
/// values mirroring the native context parameter block.
#[derive(Clone, Copy, Debug, PartialEq, Eq, Structural)]
pub struct ContextParams {
    /// Run the model on a GPU.
    pub use_gpu: bool,
    /// Index of the compute device to use.
    pub gpu_device: i32,
}

/// How the fenced native model load ended: the fault boundary around the
/// loader reports exactly one of these.
#[derive(Clone, Debug)]
pub enum LoadOutcome {
    /// The loader returned a context.
    Loaded,
    /// The loader returned an ordinary failure.
    Failed { detail: String },
    /// The loader faulted abruptly; the fault was caught at the boundary.
    Crashed { detail: String },
}

/// Decides whether a model load may start: a model path that does not
/// refer to an existing file fails with `NotFound` before any native
/// call is made.
pub fn validate_model_path(path: &String, exists: bool) -> (r: Result<(), Error>)
    ensures
        r is Ok <==> exists,
        !exists ==> (r matches Err(e) && e matches Error::NotFound { detail } && detail@ == path@),
{
    if exists {
        Ok(())
    } else {
        Err(Error::NotFound { detail: path.clone() })
    }
}

/// Resolves the device selection for a new inference context from the
/// engine defaults, the build-time GPU capability flags, and an optional
/// explicit device index.
///
/// Either capability flag forces GPU mode on; an explicit device index
/// overrides the default device selection but does not itself force GPU
/// mode on.
pub fn resolve_context_params(
    defaults: ContextParams,
    cuda_available: bool,
    rocm_available: bool,
    gpu_device: Option<i32>,
) -> (p: ContextParams)
    ensures
        p.use_gpu == (defaults.use_gpu || cuda_available || rocm_available),
        p.gpu_device == match gpu_device {
            Some(d) => d,
            None => defaults.gpu_device,
        },
{
    let mut p = defaults;
    if cuda_available || rocm_available {
        p.use_gpu = true;
    }
    if let Some(d) = gpu_device {
        p.gpu_device = d;
    }
    p
}

/// Converts the outcome of the fenced native model load into the
/// caller-facing result: a caught native fault becomes `CrashError`, an
/// ordinary loader failure becomes `LoadError`, and a successful load
/// succeeds.
pub fn classify_load_outcome(outcome: LoadOutcome) -> (r: Result<(), Error>)
    ensures
        r is Ok <==> outcome is Loaded,
        outcome matches LoadOutcome::Failed { detail } ==> (r matches Err(e)
            && e matches Error::LoadError { detail: d } && d@ == detail@),
        outcome matches LoadOutcome::Crashed { detail } ==> (r matches Err(e)
            && e matches Error::CrashError { detail: d } && d@ == detail@),
{
    match outcome {
        LoadOutcome::Loaded => Ok(()),
        LoadOutcome::Failed { detail } => Err(Error::LoadError { detail }),
        LoadOutcome::Crashed { detail } => Err(Error::CrashError { detail }),
    }
}

} // verus!
