use vstd::prelude::*;
use vstd::string::StringExecFns;
use crate::emit::{emit, emitted};
use crate::ingest::{buffer_fits, ingest, ingested, PreconditionError};
use crate::tensor::{CHANNELS, SIDE, TENSOR_LEN};

verus! {

/// Which stage of a run failed.
#[derive(Debug, Clone, Copy, PartialEq, Eq, Structural)]
pub enum FailureKind {
    /// The pixel buffer or its dimensions were malformed.
    Precondition,
    /// The model could not be loaded.
    ModelLoad,
    /// The engine failed, or returned a tensor of another shape.
    InferenceExecution,
    /// The output image could not be written.
    Persistence,
}

/// How a run ended.
#[derive(Debug, Clone)]
pub enum Outcome {
    Success { path: String },
    Failure { kind: FailureKind, message: String },
}

/// How the inference engine reported a failure.
#[derive(Debug, Clone)]
pub enum EngineError {
    ModelLoad(String),
    Execution(String),
}

/// The first output of the engine: its shape and its values in fixed point.
#[derive(Debug, Clone)]
pub struct EngineOutput {
    pub shape: Vec<i64>,
    pub values: Vec<i32>,
}

/// What the host is to do next.
#[derive(Debug)]
pub enum Step {
    /// Load the model at `model_path` and run it on `tensor`, shaped
    /// [1, 3, 512, 512] and bound to the input named `INPUT_NAME`.
    RunInference { model_path: String, tensor: Vec<i32> },
    /// Write `image`, a 512x512 RGB raster, as a PNG file at `path`.
    Save { path: String, image: Vec<u8> },
    /// Nothing more to do.
    Finish(Outcome),
}

/// Name of the network's input tensor.
pub const INPUT_NAME: &'static str = "input.1";

/// Prefix of every string that reports a failure to the host.
pub const FAILURE_MARKER: &'static str = "Prediction failed: ";

pub open spec fn digit_char(d: nat) -> char {
    ((d + 48) as u8) as char
}

/// The decimal digits of `n`, without leading zeros.
pub open spec fn decimal(n: nat) -> Seq<char>
    decreases n,
{
    if n < 10 {
        seq![digit_char(n)]
    } else {
        decimal(n / 10) + seq![digit_char(n % 10)]
    }
}

/// Relies on the `Display` impl of `u64` (through `ToString`): an integer is
/// written in decimal, with no sign and no leading zeros.
#[verifier::external_body]
fn decimal_string(n: u64) -> (r: String)
    ensures
        r@ == decimal(n as nat),
{
    n.to_string()
}

/// Where the model lies inside `dir`.
pub open spec fn model_path_of(dir: Seq<char>) -> Seq<char> {
    dir + "/downloaded_model.ort"@
}

/// Where the output image for a run at `timestamp` (seconds since the Unix
/// epoch) goes inside `dir`.
pub open spec fn output_path_of(dir: Seq<char>, timestamp: u64) -> Seq<char> {
    dir + "/anime_gan_output_"@ + decimal(timestamp as nat) + ".png"@
}

pub fn model_path(dir: &str) -> (r: String)
    ensures
        r@ == model_path_of(dir@),
{
    let mut r = String::from_str(dir);
    r.append("/downloaded_model.ort");
    r
}

pub fn output_path(dir: &str, timestamp: u64) -> (r: String)
    ensures
        r@ == output_path_of(dir@, timestamp),
{
    let mut r = String::from_str(dir);
    r.append("/anime_gan_output_");
    let digits = decimal_string(timestamp);
    r.append(digits.as_str());
    r.append(".png");
    r
}

/// The diagnostic for a refused pixel buffer.
pub open spec fn precondition_message(e: PreconditionError) -> Seq<char> {
    match e {
        PreconditionError::EmptyDimension => "Invalid input: width and height must be positive"@,
        PreconditionError::LengthMismatch => "Invalid input: buffer length is not width * height * 4"@,
    }
}

pub open spec fn model_load_message(detail: Seq<char>) -> Seq<char> {
    "Failed to load model: "@ + detail
}

pub open spec fn execution_message(detail: Seq<char>) -> Seq<char> {
    "Failed to run inference: "@ + detail
}

pub open spec fn shape_message() -> Seq<char> {
    "Failed to run inference: output is not shaped [1, 3, 512, 512]"@
}

pub open spec fn persistence_message(detail: Seq<char>) -> Seq<char> {
    "Failed to save output image: "@ + detail
}

/// The shape of the engine's output, batch dimension first.
pub open spec fn expected_shape() -> Seq<i64> {
    seq![1i64, CHANNELS as i64, SIDE as i64, SIDE as i64]
}

/// An engine output that can be emitted: a batch of one 3x512x512 tensor.
pub open spec fn output_fits(o: EngineOutput) -> bool {
    o.shape@ == expected_shape() && o.values@.len() == TENSOR_LEN
}

/// The first step of a run: check and ingest the buffer, then ask for
/// inference with the model inside `dir`. The dimensions come as the host
/// passes them, signed.
pub fn begin(buffer: &[u8], width: i32, height: i32, dir: &str) -> (s: Step)
    ensures
        (width > 0 && height > 0 && buffer_fits(buffer@, width as u32, height as u32))
            <==> s is RunInference,
        s matches Step::RunInference { model_path, tensor } ==> {
            &&& model_path@ == model_path_of(dir@)
            &&& tensor@ == ingested(buffer@, width as u32, height as u32)
        },
        (width <= 0 || height <= 0) ==> (s matches Step::Finish(
            Outcome::Failure { kind, message },
        ) && kind == FailureKind::Precondition && message@ == precondition_message(
            PreconditionError::EmptyDimension,
        )),
        (width > 0 && height > 0 && !buffer_fits(buffer@, width as u32, height as u32)) ==> (s matches Step::Finish(
            Outcome::Failure { kind, message },
        ) && kind == FailureKind::Precondition && message@ == precondition_message(
            PreconditionError::LengthMismatch,
        )),
{
    let checked = if width <= 0 || height <= 0 {
        Err(PreconditionError::EmptyDimension)
    } else {
        ingest(buffer, width as u32, height as u32)
    };
    match checked {
        Ok(tensor) => Step::RunInference { model_path: model_path(dir), tensor },
        Err(e) => {
            let message = match e {
                PreconditionError::EmptyDimension => String::from_str(
                    "Invalid input: width and height must be positive",
                ),
                PreconditionError::LengthMismatch => String::from_str(
                    "Invalid input: buffer length is not width * height * 4",
                ),
            };
            Step::Finish(Outcome::Failure { kind: FailureKind::Precondition, message })
        },
    }
}

/// Whether the engine output is a batch of one 3x512x512 tensor.
pub fn check_output(o: &EngineOutput) -> (r: bool)
    ensures
        r == output_fits(*o),
{
    let ok = o.shape.len() == 4 && o.shape[0] == 1 && o.shape[1] == CHANNELS as i64
        && o.shape[2] == SIDE as i64 && o.shape[3] == SIDE as i64 && o.values.len() == TENSOR_LEN;
    proof {
        if ok {
            assert(o.shape@ =~= expected_shape());
        }
    }
    ok
}

fn concat_str(prefix: &str, detail: &String) -> (r: String)
    ensures
        r@ == prefix@ + detail@,
{
    let mut r = String::from_str(prefix);
    r.append(detail.as_str());
    r
}

/// The step after the engine answered: emit and ask for the image to be
/// saved, or finish with the engine's failure. A failed inference never
/// leads to a write.
pub fn after_inference(dir: &str, result: Result<EngineOutput, EngineError>, timestamp: u64) -> (s:
    Step)
    ensures
        (result matches Ok(o) && output_fits(o)) <==> s is Save,
        s matches Step::Save { path, image } ==> {
            &&& path@ == output_path_of(dir@, timestamp)
            &&& result matches Ok(o) && image@ == emitted(o.values@)
        },
        result matches Err(EngineError::ModelLoad(d)) ==> s matches Step::Finish(
            Outcome::Failure { kind, message },
        ) && kind == FailureKind::ModelLoad && message@ == model_load_message(d@),
        result matches Err(EngineError::Execution(d)) ==> s matches Step::Finish(
            Outcome::Failure { kind, message },
        ) && kind == FailureKind::InferenceExecution && message@ == execution_message(d@),
        (result matches Ok(o) && !output_fits(o)) ==> (s matches Step::Finish(
            Outcome::Failure { kind, message },
        ) && kind == FailureKind::InferenceExecution && message@ == shape_message()),
{
    match result {
        Err(EngineError::ModelLoad(d)) => {
            let message = concat_str("Failed to load model: ", &d);
            Step::Finish(Outcome::Failure { kind: FailureKind::ModelLoad, message })
        },
        Err(EngineError::Execution(d)) => {
            let message = concat_str("Failed to run inference: ", &d);
            Step::Finish(Outcome::Failure { kind: FailureKind::InferenceExecution, message })
        },
        Ok(o) => {
            if check_output(&o) {
                let image = emit(o.values.as_slice());
                Step::Save { path: output_path(dir, timestamp), image }
            } else {
                let message = String::from_str(
                    "Failed to run inference: output is not shaped [1, 3, 512, 512]",
                );
                Step::Finish(Outcome::Failure { kind: FailureKind::InferenceExecution, message })
            }
        },
    }
}

/// How a run ends once the host tried to write the image at `path`.
pub fn after_save(path: String, result: Result<(), String>) -> (r: Outcome)
    ensures
        result is Ok ==> r == (Outcome::Success { path }),
        result matches Err(d) ==> r matches Outcome::Failure { kind, message } && kind
            == FailureKind::Persistence && message@ == persistence_message(d@),
{
    match result {
        Ok(()) => Outcome::Success { path },
        Err(d) => Outcome::Failure {
            kind: FailureKind::Persistence,
            message: concat_str("Failed to save output image: ", &d),
        },
    }
}

impl Outcome {
    /// The single string handed back to the host: the path on success, the
    /// failure marker followed by the diagnostic otherwise.
    pub open spec fn host_view(&self) -> Seq<char> {
        match self {
            Outcome::Success { path } => path@,
            Outcome::Failure { message, .. } => FAILURE_MARKER@ + message@,
        }
    }

    pub fn to_host_string(&self) -> (r: String)
        ensures
            r@ == self.host_view(),
    {
        match self {
            Outcome::Success { path } => path.clone(),
            Outcome::Failure { message, .. } => concat_str(FAILURE_MARKER, message),
        }
    }
}

} // verus!
