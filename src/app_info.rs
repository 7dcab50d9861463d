//! The application descriptor handed to instance creation: fixed-size,
//! NUL-terminated name buffers and version numbers.
use vstd::prelude::*;
use vstd::string::StringSliceAdditionalSpecFns;
use crate::native::{application_name_capacity, engine_name_capacity};

verus! {

/// Byte capacity of both name buffers of `XrApplicationInfo`.
pub const NAME_BUFFER_SIZE: usize = 128;

/// The contents of `XrApplicationInfo`, with each name held in its fixed-size
/// buffer exactly as the runtime reads it.
#[derive(Clone, Debug, PartialEq, Eq)]
pub struct ApplicationDescriptor {
    pub application_name: Vec<u8>,
    pub application_version: u32,
    pub engine_name: Vec<u8>,
    pub engine_version: u32,
}

/// Why an application descriptor could not be built.
#[derive(Clone, Copy, Debug, PartialEq, Eq, Structural)]
pub enum ApplicationInfoError {
    /// The application name has no bytes.
    EmptyApplicationName,
    /// The application name and its terminating NUL do not fit the buffer.
    ApplicationNameTooLong,
    /// The engine name and its terminating NUL do not fit the buffer.
    EngineNameTooLong,
}

/// `name` followed by zero bytes up to `size` bytes in all.
pub open spec fn name_buffer(name: Seq<u8>, size: nat) -> Seq<u8> {
    Seq::new(size, |i: int| if i < name.len() { name[i] } else { 0u8 })
}

/// A name fits a buffer when its bytes and the terminating NUL do.
pub open spec fn fits_buffer(name: Seq<u8>) -> bool {
    name.len() < NAME_BUFFER_SIZE
}

/// The bytes of an optional engine name; an absent one reads as empty.
pub open spec fn engine_bytes(engine_name: Option<&str>) -> Seq<u8> {
    match engine_name {
        Some(e) => e.spec_bytes(),
        None => Seq::empty(),
    }
}

/// The checks that must pass before any native call, in the order they are made.
pub open spec fn application_info_error(name: &str, engine_name: Option<&str>) -> Option<
    ApplicationInfoError,
> {
    if name.spec_bytes().len() == 0 {
        Some(ApplicationInfoError::EmptyApplicationName)
    } else if !fits_buffer(name.spec_bytes()) {
        Some(ApplicationInfoError::ApplicationNameTooLong)
    } else if !fits_buffer(engine_bytes(engine_name)) {
        Some(ApplicationInfoError::EngineNameTooLong)
    } else {
        None
    }
}

/// An empty application name, or one too long to fit the name buffer with
/// its terminator, is refused whatever the engine name; the refusal comes
/// from checks made before any native call.
pub proof fn lemma_unfit_names_rejected(name: &str, engine_name: Option<&str>)
    ensures
        name.spec_bytes().len() == 0 ==> application_info_error(name, engine_name) == Some(
            ApplicationInfoError::EmptyApplicationName,
        ),
        name.spec_bytes().len() >= NAME_BUFFER_SIZE ==> application_info_error(name, engine_name)
            == Some(ApplicationInfoError::ApplicationNameTooLong),
{
}

/// `d` is the descriptor of the given application and engine.
pub open spec fn describes(
    d: ApplicationDescriptor,
    name: &str,
    version: u32,
    engine_name: Option<&str>,
    engine_version: Option<u32>,
) -> bool {
    &&& d.application_name@ == name_buffer(name.spec_bytes(), NAME_BUFFER_SIZE as nat)
    &&& d.engine_name@ == name_buffer(engine_bytes(engine_name), NAME_BUFFER_SIZE as nat)
    &&& d.application_version == version
    &&& d.engine_version == match engine_version {
        Some(v) => v,
        None => 0u32,
    }
}

/// Copies `name` into a zero-filled buffer of `size` bytes.
fn fill_name_buffer(name: &[u8], size: usize) -> (r: Vec<u8>)
    requires
        name@.len() < size,
    ensures
        r@ == name_buffer(name@, size as nat),
{
    let mut buf: Vec<u8> = Vec::new();
    let mut i: usize = 0;
    while i < size
        invariant
            name@.len() < size,
            i <= size,
            buf@.len() == i,
            forall|k: int| 0 <= k < i ==> #[trigger] buf@[k] == name_buffer(name@, size as nat)[k],
        decreases size - i,
    {
        if i < name.len() {
            buf.push(name[i]);
        } else {
            buf.push(0u8);
        }
        i = i + 1;
    }
    assert(buf@ =~= name_buffer(name@, size as nat));
    buf
}

/// Builds the application descriptor. The application name must be non-empty
/// and, like the engine name, leave room for its NUL terminator; an absent
/// engine name or version leaves the field zeroed.
pub fn application_info(
    name: &str,
    version: u32,
    engine_name: Option<&str>,
    engine_version: Option<u32>,
) -> (r: Result<ApplicationDescriptor, ApplicationInfoError>)
    ensures
        match application_info_error(name, engine_name) {
            Some(e) => r == Err::<ApplicationDescriptor, ApplicationInfoError>(e),
            None => r matches Ok(d) && describes(d, name, version, engine_name, engine_version),
        },
{
    let app_capacity: usize = application_name_capacity();
    let engine_capacity: usize = engine_name_capacity();
    let name_bytes = name.as_bytes();
    if name_bytes.len() == 0 {
        return Err(ApplicationInfoError::EmptyApplicationName);
    }
    if name_bytes.len() >= app_capacity {
        return Err(ApplicationInfoError::ApplicationNameTooLong);
    }
    let engine: &[u8] = match engine_name {
        Some(e) => e.as_bytes(),
        None => &[],
    };
    if engine.len() >= engine_capacity {
        return Err(ApplicationInfoError::EngineNameTooLong);
    }
    let application_name = fill_name_buffer(name_bytes, app_capacity);
    let engine_name_buf = fill_name_buffer(engine, engine_capacity);
    let engine_ver: u32 = match engine_version {
        Some(v) => v,
        None => 0,
    };
    let d = ApplicationDescriptor {
        application_name,
        application_version: version,
        engine_name: engine_name_buf,
        engine_version: engine_ver,
    };
    assert(engine_bytes(engine_name) == engine@);
    Ok(d)
}

} // verus!
