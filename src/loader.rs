use vstd::prelude::*;
use vstd::string::StringSliceAdditionalSpecFns;
use crate::pixels::{image_dimensions, image_samples, rgb_from_raw, ImageResult, libraw_data_t};

verus! {

/// Why a load produced no image.
#[derive(Debug, Clone, Copy, PartialEq, Eq, Structural)]
pub enum LoadError {
    /// The path cannot be handed to the native decoder: it holds a NUL byte.
    InvalidPath,
    /// The native decoder could not open or recognise the file; no handle was obtained.
    OpenFailed,
    /// The native decoder reported a failure or handed back no usable buffer.
    DecodeFailed,
    /// The decoded buffer does not describe a dense RGB image of the reported size.
    BufferConstructionFailed,
}

impl LoadError {
    /// A human-readable description of the failure.
    pub fn message(&self) -> (r: &'static str)
        ensures
            *self == LoadError::InvalidPath ==> r@ == "path contains a NUL byte"@,
            *self == LoadError::OpenFailed ==> r@ == "Failed to open image with LibRaw"@,
            *self == LoadError::DecodeFailed ==> r@ == "Failed to extract image data"@,
            *self == LoadError::BufferConstructionFailed ==> r@ == "Failed to construct image"@,
    {
        match self {
            LoadError::InvalidPath => {
                proof { reveal_strlit("path contains a NUL byte"); }
                "path contains a NUL byte"
            },
            LoadError::OpenFailed => {
                proof { reveal_strlit("Failed to open image with LibRaw"); }
                "Failed to open image with LibRaw"
            },
            LoadError::DecodeFailed => {
                proof { reveal_strlit("Failed to extract image data"); }
                "Failed to extract image data"
            },
            LoadError::BufferConstructionFailed => {
                proof { reveal_strlit("Failed to construct image"); }
                "Failed to construct image"
            },
        }
    }
}

/// What the native decoder wrote through the out-parameters of its
/// get-processed-image call.
#[derive(Debug, Clone, Copy)]
pub struct DecodeReport {
    /// The call's status code; zero means success.
    pub status: i32,
    /// Whether the returned buffer pointer was non-null.
    pub buffer_present: bool,
    /// The byte length of the buffer.
    pub len: i32,
    pub width: i32,
    pub height: i32,
}

impl DecodeReport {
    /// The report does not describe a usable buffer.
    pub open spec fn is_failure(self) -> bool {
        self.status != 0 || !self.buffer_present || self.len <= 0
    }
}

/// A load session's progress between two calls into the native decoder.
pub enum LoadState {
    /// The path was accepted; the decoder is asked to open it.
    Opening,
    /// A handle is held; the decoder is asked for the processed image.
    Decoding,
    /// A handle is held; `len` bytes of a `width` by `height` image are to be copied out.
    Copying { width: i32, height: i32, len: usize },
    /// The handle is being released; `outcome` is returned once that is done.
    Closing { outcome: Result<ImageResult, LoadError> },
    /// The load is over.
    Done,
}

/// What the native decoder answered to the last action.
pub enum LoadEvent {
    /// The open call returned; `handle_valid` is false for a null handle.
    Opened { handle_valid: bool },
    /// The get-processed-image call returned.
    Decoded(DecodeReport),
    /// The buffer's bytes and the metadata record were copied out of the handle.
    Copied { pixels: Vec<u8>, metadata: libraw_data_t },
    /// The handle was released.
    Closed,
}

/// What the caller is to do next with the native decoder.
pub enum LoadAction {
    /// Open the path; answer with `Opened`.
    Open,
    /// Request the processed image from the handle; answer with `Decoded`.
    Decode,
    /// Copy `len` bytes of the buffer and the metadata record; answer with `Copied`.
    CopyOut { len: usize },
    /// Release the handle; answer with `Closed`.
    Close,
    /// The load is over with this result.
    Finish(Result<ImageResult, LoadError>),
}

impl LoadAction {
    /// An image handed out at the end of a load is well formed.
    pub open spec fn wf(self) -> bool {
        self matches LoadAction::Finish(Ok(res)) ==> res.wf()
    }
}

/// `s` holds a handle whose release has not been requested yet.
pub open spec fn release_pending(s: LoadState) -> bool {
    s is Decoding || s is Copying
}

/// The copied bytes describe a dense, non-empty RGB image of the reported size.
pub open spec fn buffer_fits(width: i32, height: i32, len: usize, copied: nat) -> bool {
    &&& width > 0
    &&& height > 0
    &&& 3 * (width as int) * (height as int) == len as int
    &&& copied == len as int
}

impl ImageResult {
    /// The image has positive dimensions and three samples per pixel.
    pub open spec fn wf(self) -> bool {
        let (w, h) = image_dimensions(self.image);
        &&& w > 0
        &&& h > 0
        &&& image_samples(self.image).len() == 3 * (w as int) * (h as int)
    }
}

impl LoadState {
    /// An image waiting for release is well formed.
    pub open spec fn wf(self) -> bool {
        self matches LoadState::Closing { outcome: Ok(res) } ==> res.wf()
    }

    /// `event` answers the action that led to this state.
    pub open spec fn accepts(self, event: LoadEvent) -> bool {
        match self {
            LoadState::Opening => event is Opened,
            LoadState::Decoding => event is Decoded,
            LoadState::Copying { .. } => event is Copied,
            LoadState::Closing { .. } => event is Closed,
            LoadState::Done => false,
        }
    }
}

/// One transition of a load: from `s`, on `e`, to `t`, asking for `a`.
pub open spec fn transition(s: LoadState, e: LoadEvent, t: LoadState, a: LoadAction) -> bool {
    match s {
        LoadState::Opening => match e {
            LoadEvent::Opened { handle_valid } => if handle_valid {
                t is Decoding && a is Decode
            } else {
                t is Done && a == LoadAction::Finish(Err(LoadError::OpenFailed))
            },
            _ => false,
        },
        LoadState::Decoding => match e {
            LoadEvent::Decoded(rep) => if rep.is_failure() {
                t == (LoadState::Closing { outcome: Err(LoadError::DecodeFailed) }) && a is Close
            } else {
                &&& t == (LoadState::Copying { width: rep.width, height: rep.height, len: rep.len as usize })
                &&& a == (LoadAction::CopyOut { len: rep.len as usize })
            },
            _ => false,
        },
        LoadState::Copying { width, height, len } => match e {
            LoadEvent::Copied { pixels, metadata } => {
                &&& a is Close
                &&& t is Closing
                &&& match t->outcome {
                    Ok(res) => {
                        &&& buffer_fits(width, height, len, pixels@.len())
                        &&& res.metadata == metadata
                        &&& image_samples(res.image) == pixels@
                        &&& image_dimensions(res.image) == (width as u32, height as u32)
                    },
                    Err(err) => !buffer_fits(width, height, len, pixels@.len())
                        && err == LoadError::BufferConstructionFailed,
                }
            },
            _ => false,
        },
        LoadState::Closing { outcome } => match e {
            LoadEvent::Closed => t is Done && a == LoadAction::Finish(outcome),
            _ => false,
        },
        LoadState::Done => false,
    }
}

/// Starts a load of `path`: a path that holds a NUL byte is refused before
/// the native decoder is involved, any other is to be opened.
pub fn begin(path: &str) -> (r: (LoadState, LoadAction))
    ensures
        path.spec_bytes().contains(0u8) ==> r.0 is Done && r.1 == LoadAction::Finish(
            Err(LoadError::InvalidPath),
        ),
        !path.spec_bytes().contains(0u8) ==> r.0 is Opening && r.1 is Open,
{
    let bytes = path.as_bytes();
    let mut i: usize = 0;
    while i < bytes.len()
        invariant
            bytes@ == path.spec_bytes(),
            i <= bytes@.len(),
            forall|j: int| 0 <= j < i ==> bytes@[j] != 0u8,
        decreases bytes@.len() - i,
    {
        if bytes[i] == 0u8 {
            assert(bytes@[i as int] == 0u8);
            return (LoadState::Done, LoadAction::Finish(Err(LoadError::InvalidPath)));
        }
        i = i + 1;
    }
    (LoadState::Opening, LoadAction::Open)
}

impl LoadState {
    /// Takes the decoder's answer to the last action and decides the next one.
    /// A handle, once obtained, is released before the load finishes, and a
    /// buffer becomes an image only when it is a dense RGB image of the
    /// reported, positive size.
    pub fn step(self, event: LoadEvent) -> (r: (LoadState, LoadAction))
        requires
            self.accepts(event),
        ensures
            transition(self, event, r.0, r.1),
            r.0.wf(),
    {
        match self {
            LoadState::Opening => match event {
                LoadEvent::Opened { handle_valid } => if handle_valid {
                    (LoadState::Decoding, LoadAction::Decode)
                } else {
                    (LoadState::Done, LoadAction::Finish(Err(LoadError::OpenFailed)))
                },
                _ => (LoadState::Done, LoadAction::Finish(Err(LoadError::OpenFailed))),
            },
            LoadState::Decoding => match event {
                LoadEvent::Decoded(rep) => {
                    if rep.status != 0 || !rep.buffer_present || rep.len <= 0 {
                        (LoadState::Closing { outcome: Err(LoadError::DecodeFailed) }, LoadAction::Close)
                    } else {
                        let len = rep.len as usize;
                        (
                            LoadState::Copying { width: rep.width, height: rep.height, len },
                            LoadAction::CopyOut { len },
                        )
                    }
                },
                _ => (LoadState::Done, LoadAction::Finish(Err(LoadError::DecodeFailed))),
            },
            LoadState::Copying { width, height, len } => match event {
                LoadEvent::Copied { pixels, metadata } => {
                    let outcome = assemble(width, height, len, pixels, metadata);
                    (LoadState::Closing { outcome }, LoadAction::Close)
                },
                _ => (LoadState::Done, LoadAction::Finish(Err(LoadError::DecodeFailed))),
            },
            LoadState::Closing { outcome } => (LoadState::Done, LoadAction::Finish(outcome)),
            LoadState::Done => (LoadState::Done, LoadAction::Finish(Err(LoadError::DecodeFailed))),
        }
    }
}

/// Builds the image from the copied bytes, or reports that they do not
/// describe a dense RGB image of the reported size.
pub fn assemble(width: i32, height: i32, len: usize, pixels: Vec<u8>, metadata: libraw_data_t) -> (r:
    Result<ImageResult, LoadError>)
    ensures
        buffer_fits(width, height, len, pixels@.len()) <==> r is Ok,
        r matches Ok(res) ==> {
            &&& res.metadata == metadata
            &&& image_samples(res.image) == pixels@
            &&& image_dimensions(res.image) == (width as u32, height as u32)
            &&& res.wf()
        },
        r matches Err(err) ==> err == LoadError::BufferConstructionFailed,
{
    if width <= 0 || height <= 0 || pixels.len() != len {
        return Err(LoadError::BufferConstructionFailed);
    }
    let w = width as u64;
    let h = height as u64;
    assert(w * h <= 0x4000_0000_0000_0000u64) by (nonlinear_arith)
        requires
            w < 0x8000_0000u64,
            h < 0x8000_0000u64,
    ;
    let area = w * h;
    assert(3 * (width as int) * (height as int) == 3 * (area as int)) by (nonlinear_arith)
        requires
            area as int == (w as int) * (h as int),
            w as int == width as int,
            h as int == height as int,
    ;
    if area > (len as u64) / 3 || area * 3 != len as u64 {
        return Err(LoadError::BufferConstructionFailed);
    }
    match rgb_from_raw(width as u32, height as u32, pixels) {
        Some(image) => Ok(ImageResult { metadata, image }),
        None => Err(LoadError::BufferConstructionFailed),
    }
}

} // verus!
