//! Checks and conversions applied to the raw integers and strings that the
//! Java side hands to the native methods before any server work is done.
use vstd::prelude::*;

verus! {

/// Smallest framebuffer side accepted, in pixels.
pub const MIN_DIMENSION: i32 = 1;

/// Largest framebuffer side (and crop side) accepted, in pixels.
pub const MAX_DIMENSION: i32 = 8192;

/// Port value meaning "do not accept inbound connections".
pub const PORT_DISABLED: i32 = -1;

/// Bytes per pixel in the frames that Java hands over (RGBA).
pub const BYTES_PER_PIXEL: usize = 4;

/// Why a request from the Java side is refused.
#[derive(Debug, Clone, PartialEq, Eq)]
pub enum RequestError {
    /// The width lies outside `MIN_DIMENSION..=MAX_DIMENSION`.
    InvalidWidth(i32),
    /// The height lies outside `MIN_DIMENSION..=MAX_DIMENSION`.
    InvalidHeight(i32),
    /// The port is neither `PORT_DISABLED` nor in `1..=65535`.
    InvalidPort(i32),
    /// The desktop name string could not be read from Java.
    DesktopNameUnavailable,
    /// A crop origin is negative or a crop side is not positive.
    InvalidCrop,
    /// A crop side exceeds `MAX_DIMENSION`.
    CropTooLarge,
    /// The buffer does not hold exactly `width * height * 4` bytes.
    BufferSizeMismatch { expected: usize, actual: usize },
    /// A copy-rectangle origin is negative or a side is not positive.
    InvalidCopyRect,
    /// `vncInit` has not run yet, so there is nowhere to keep a server.
    NotInitialized,
    /// No server is running.
    ServerNotRunning,
}

/// A framebuffer size that passed the dimension checks.
#[derive(Debug, Clone, Copy, PartialEq, Eq)]
pub struct FramebufferSize {
    pub width: u16,
    pub height: u16,
}

/// Everything needed to create a server, as accepted from `vncStartServer`.
#[derive(Debug, Clone, PartialEq, Eq)]
pub struct StartConfig {
    pub width: u16,
    pub height: u16,
    /// `None` when inbound connections are disabled.
    pub port: Option<u16>,
    pub desktop_name: String,
    /// `None` when no password protects the server.
    pub password: Option<String>,
}

/// A cropped update region that passed the checks.
#[derive(Debug, Clone, Copy, PartialEq, Eq)]
pub struct CropRegion {
    pub x: u16,
    pub y: u16,
    pub width: u16,
    pub height: u16,
}

/// A copy-rectangle request as the server receives it.
#[derive(Debug, Clone, Copy, PartialEq, Eq)]
pub struct CopyRect {
    pub x: u16,
    pub y: u16,
    pub width: u16,
    pub height: u16,
    pub dx: i16,
    pub dy: i16,
}

/// Whether `v` is an accepted framebuffer side.
pub open spec fn valid_dimension(v: int) -> bool {
    MIN_DIMENSION <= v <= MAX_DIMENSION
}

/// The value of `v` kept to its low 16 bits, read unsigned.
pub open spec fn wrap_u16(v: int) -> int {
    v % 0x1_0000
}

/// The value of `v` kept to its low 16 bits, read as two's complement.
pub open spec fn wrap_i16(v: int) -> int {
    (v + 0x8000) % 0x1_0000 - 0x8000
}

/// The value of `v` kept to its low 64 bits, read unsigned.
pub open spec fn wrap_u64(v: int) -> int {
    v % 0x1_0000_0000_0000_0000
}

/// The value of `v` kept to the width of `usize`, read unsigned.
pub open spec fn wrap_usize(v: int) -> int {
    if usize::BITS == 32 {
        v % 0x1_0000_0000
    } else {
        v % 0x1_0000_0000_0000_0000
    }
}

/// The value of `v` kept to its low 64 bits, read as two's complement.
pub open spec fn wrap_i64(v: int) -> int {
    (v + 0x8000_0000_0000_0000) % 0x1_0000_0000_0000_0000 - 0x8000_0000_0000_0000
}

/// The port a `vncStartServer` port value stands for, if it is accepted:
/// `Some(None)` for disabled, `Some(Some(p))` for a listening port.
pub open spec fn spec_listen_port(port: int) -> Option<Option<u16>> {
    if port == PORT_DISABLED {
        Some(None)
    } else if 1 <= port <= 65535 {
        Some(Some(port as u16))
    } else {
        None
    }
}

/// An optional text from Java with the empty string read as absent.
pub open spec fn spec_nonempty_text(text: Option<String>) -> Option<String> {
    match text {
        Some(s) => if s@.len() == 0 { None } else { Some(s) },
        None => None,
    }
}

/// Checks one framebuffer side and narrows it to `u16`.
pub fn checked_dimension(value: i32) -> (r: Option<u16>)
    ensures
        r == (if valid_dimension(value as int) { Some(value as u16) } else { None }),
{
    if MIN_DIMENSION <= value && value <= MAX_DIMENSION {
        Some(value as u16)
    } else {
        None
    }
}

/// Checks the width and then the height of a framebuffer.
pub fn validate_dimensions(width: i32, height: i32) -> (r: Result<FramebufferSize, RequestError>)
    ensures
        !valid_dimension(width as int) ==> r == Err::<FramebufferSize, RequestError>(
            RequestError::InvalidWidth(width),
        ),
        valid_dimension(width as int) && !valid_dimension(height as int) ==> r == Err::<
            FramebufferSize,
            RequestError,
        >(RequestError::InvalidHeight(height)),
        valid_dimension(width as int) && valid_dimension(height as int) ==> r == Ok::<
            FramebufferSize,
            RequestError,
        >(FramebufferSize { width: width as u16, height: height as u16 }),
{
    let w = match checked_dimension(width) {
        Some(w) => w,
        None => return Err(RequestError::InvalidWidth(width)),
    };
    let h = match checked_dimension(height) {
        Some(h) => h,
        None => return Err(RequestError::InvalidHeight(height)),
    };
    Ok(FramebufferSize { width: w, height: h })
}

/// Reads the port of `vncStartServer`: `-1` disables inbound connections,
/// `1..=65535` is a listening port, anything else is refused.
pub fn listen_port(port: i32) -> (r: Result<Option<u16>, RequestError>)
    ensures
        match spec_listen_port(port as int) {
            Some(p) => r == Ok::<Option<u16>, RequestError>(p),
            None => r == Err::<Option<u16>, RequestError>(RequestError::InvalidPort(port)),
        },
{
    if port == PORT_DISABLED {
        Ok(None)
    } else if 1 <= port && port <= 65535 {
        Ok(Some(port as u16))
    } else {
        Err(RequestError::InvalidPort(port))
    }
}

/// Reads an optional text (a password or a request id) from Java: a missing
/// or empty text means "none".
pub fn nonempty_text(text: Option<String>) -> (r: Option<String>)
    ensures
        r == spec_nonempty_text(text),
{
    match text {
        Some(s) => {
            if s.as_str().is_empty() {
                None
            } else {
                Some(s)
            }
        },
        None => None,
    }
}

/// What `vncStartServer` accepts, in the order it checks its arguments:
/// width, height, port, then the desktop name (`None` when Java could not
/// hand the string over). The password is optional and empty means none.
pub open spec fn spec_start_config(
    width: i32,
    height: i32,
    port: i32,
    desktop_name: Option<String>,
    password: Option<String>,
) -> Result<StartConfig, RequestError> {
    if !valid_dimension(width as int) {
        Err(RequestError::InvalidWidth(width))
    } else if !valid_dimension(height as int) {
        Err(RequestError::InvalidHeight(height))
    } else if spec_listen_port(port as int) is None {
        Err(RequestError::InvalidPort(port))
    } else if desktop_name is None {
        Err(RequestError::DesktopNameUnavailable)
    } else {
        Ok(
            StartConfig {
                width: width as u16,
                height: height as u16,
                port: spec_listen_port(port as int)->0,
                desktop_name: desktop_name->0,
                password: spec_nonempty_text(password),
            },
        )
    }
}

/// Checks the arguments of `vncStartServer`.
pub fn validate_start_request(
    width: i32,
    height: i32,
    port: i32,
    desktop_name: Option<String>,
    password: Option<String>,
) -> (r: Result<StartConfig, RequestError>)
    ensures
        r == spec_start_config(width, height, port, desktop_name, password),
{
    let size = match validate_dimensions(width, height) {
        Ok(size) => size,
        Err(e) => return Err(e),
    };
    let port = match listen_port(port) {
        Ok(p) => p,
        Err(e) => return Err(e),
    };
    let desktop_name = match desktop_name {
        Some(name) => name,
        None => return Err(RequestError::DesktopNameUnavailable),
    };
    Ok(
        StartConfig {
            width: size.width,
            height: size.height,
            port,
            desktop_name,
            password: nonempty_text(password),
        },
    )
}

/// What a cropped framebuffer update accepts: non-negative origin, positive
/// sides of at most `MAX_DIMENSION`, and a buffer of exactly
/// `width * height * 4` bytes. The origin keeps its low 16 bits.
pub open spec fn spec_crop_region(
    buffer_len: usize,
    x: i32,
    y: i32,
    width: i32,
    height: i32,
) -> Result<CropRegion, RequestError> {
    if x < 0 || y < 0 || width <= 0 || height <= 0 {
        Err(RequestError::InvalidCrop)
    } else if width > MAX_DIMENSION || height > MAX_DIMENSION {
        Err(RequestError::CropTooLarge)
    } else if buffer_len != width * height * 4 {
        Err(
            RequestError::BufferSizeMismatch {
                expected: (width * height * 4) as usize,
                actual: buffer_len,
            },
        )
    } else {
        Ok(
            CropRegion {
                x: wrap_u16(x as int) as u16,
                y: wrap_u16(y as int) as u16,
                width: width as u16,
                height: height as u16,
            },
        )
    }
}

/// Checks a cropped framebuffer update of `buffer_len` bytes.
pub fn validate_crop(buffer_len: usize, x: i32, y: i32, width: i32, height: i32) -> (r: Result<
    CropRegion,
    RequestError,
>)
    ensures
        r == spec_crop_region(buffer_len, x, y, width, height),
{
    if x < 0 || y < 0 || width <= 0 || height <= 0 {
        return Err(RequestError::InvalidCrop);
    }
    if width > MAX_DIMENSION || height > MAX_DIMENSION {
        return Err(RequestError::CropTooLarge);
    }
    let w = width as usize;
    let h = height as usize;
    assert(w * h <= 8192 * 8192) by (nonlinear_arith)
        requires
            w <= 8192,
            h <= 8192,
    ;
    let expected = w * h * BYTES_PER_PIXEL;
    if buffer_len != expected {
        return Err(RequestError::BufferSizeMismatch { expected, actual: buffer_len });
    }
    Ok(
        CropRegion {
            x: low_u16(x),
            y: low_u16(y),
            width: width as u16,
            height: height as u16,
        },
    )
}

/// The low 16 bits of `v`, read unsigned (what `v as u16` keeps).
pub fn low_u16(v: i32) -> (r: u16)
    ensures
        r as int == wrap_u16(v as int),
{
    let r = #[verifier::truncate] (v as u16);
    assert(r as int == wrap_u16(v as int)) by (bit_vector)
        requires
            r == #[verifier::truncate] (v as u16),
    ;
    r
}

/// The low 16 bits of `v`, read as two's complement (what `v as i16` keeps).
pub fn low_i16(v: i32) -> (r: i16)
    ensures
        r as int == wrap_i16(v as int),
{
    let r = #[verifier::truncate] (v as i16);
    assert(r as int == wrap_i16(v as int)) by (bit_vector)
        requires
            r == #[verifier::truncate] (v as i16),
    ;
    r
}

/// What a copy-rectangle request accepts: non-negative origin and positive
/// sides; every value is then kept to 16 bits as the server takes it.
pub open spec fn spec_copy_rect(
    x: i32,
    y: i32,
    width: i32,
    height: i32,
    dx: i32,
    dy: i32,
) -> Result<CopyRect, RequestError> {
    if x < 0 || y < 0 || width <= 0 || height <= 0 {
        Err(RequestError::InvalidCopyRect)
    } else {
        Ok(
            CopyRect {
                x: wrap_u16(x as int) as u16,
                y: wrap_u16(y as int) as u16,
                width: wrap_u16(width as int) as u16,
                height: wrap_u16(height as int) as u16,
                dx: wrap_i16(dx as int) as i16,
                dy: wrap_i16(dy as int) as i16,
            },
        )
    }
}

/// Checks a copy-rectangle request (`vncScheduleCopyRect`, `vncDoCopyRect`).
pub fn validate_copy_rect(x: i32, y: i32, width: i32, height: i32, dx: i32, dy: i32) -> (r: Result<
    CopyRect,
    RequestError,
>)
    ensures
        r == spec_copy_rect(x, y, width, height, dx, dy),
{
    if x < 0 || y < 0 || width <= 0 || height <= 0 {
        return Err(RequestError::InvalidCopyRect);
    }
    Ok(
        CopyRect {
            x: low_u16(x),
            y: low_u16(y),
            width: low_u16(width),
            height: low_u16(height),
            dx: low_i16(dx),
            dy: low_i16(dy),
        },
    )
}

/// The port used for outbound (reverse and repeater) connections: the low
/// 16 bits of the Java `int`, with no further check.
pub fn outbound_port(port: i32) -> (r: u16)
    ensures
        r as int == wrap_u16(port as int),
{
    low_u16(port)
}

/// The `long` handed back to Java for a connection attempt: the new
/// client's id, or `0` when no connection was made.
pub fn connection_reply(client_id: Option<u64>) -> (r: i64)
    ensures
        r as int == match client_id {
            Some(id) => wrap_i64(id as int),
            None => 0,
        },
{
    match client_id {
        Some(id) => java_long(id),
        None => 0,
    }
}

/// A client id as a Java `long` (the same 64 bits, read signed).
pub fn java_long(id: u64) -> (r: i64)
    ensures
        r as int == wrap_i64(id as int),
{
    let r = #[verifier::truncate] (id as i64);
    assert(r as int == wrap_i64(id as int)) by (bit_vector)
        requires
            r == #[verifier::truncate] (id as i64),
    ;
    r
}

/// A client id from Java (a `long`) as the server's id, which is a `usize`:
/// the low `usize::BITS` bits of the Java value, read unsigned.
pub fn client_key(client_id: i64) -> (r: u64)
    ensures
        r as int == wrap_usize(client_id as int),
{
    let k = #[verifier::truncate] (client_id as usize);
    assert(k as int == wrap_usize(client_id as int)) by (bit_vector)
        requires
            k == #[verifier::truncate] (client_id as usize),
    ;
    k as u64
}

/// The `int` handed back to Java for a framebuffer side: the side when a
/// server is running, `-1` otherwise.
pub fn dimension_reply(side: Option<u16>) -> (r: i32)
    ensures
        r as int == match side {
            Some(v) => v as int,
            None => -1,
        },
{
    match side {
        Some(v) => v as i32,
        None => -1,
    }
}

/// A present, non-empty text is kept exactly as given; only a missing or
/// empty text counts as none.
pub proof fn nonempty_text_keeps_text(text: Option<String>)
    ensures
        (text matches Some(s) && s@.len() > 0) ==> spec_nonempty_text(text) == text,
        (text matches Some(s) && s@.len() == 0) ==> spec_nonempty_text(text) is None,
        text is None ==> spec_nonempty_text(text) is None,
{
}

/// An accepted start request keeps what Java handed over: the size, the
/// desktop name, and the password exactly as given unless it is empty or
/// missing; a listening port is kept as given.
pub proof fn start_keeps_request(
    width: i32,
    height: i32,
    port: i32,
    desktop_name: Option<String>,
    password: Option<String>,
)
    ensures
        spec_start_config(width, height, port, desktop_name, password) matches Ok(c) ==> {
            &&& c.width as int == width as int
            &&& c.height as int == height as int
            &&& 1 <= width <= 8192 && 1 <= height <= 8192
            &&& desktop_name == Some(c.desktop_name)
            &&& c.password == (if password matches Some(p) && p@.len() > 0 {
                password
            } else {
                None::<String>
            })
            &&& (port == -1 <==> c.port is None)
            &&& (c.port matches Some(p) ==> p as int == port as int)
        },
        (1 <= width <= 8192 && 1 <= height <= 8192 && 1 <= port <= 65535 && desktop_name is Some)
            ==> spec_start_config(width, height, port, desktop_name, password) is Ok,
{
}

/// A crop is accepted exactly when its origin is not negative, its sides
/// are within 1..=8192 and the buffer holds exactly `width * height * 4`
/// bytes; the accepted region keeps the sides as given. With a valid
/// region, any other buffer length is refused with that expected length.
pub proof fn crop_needs_exact_buffer(buffer_len: usize, x: i32, y: i32, width: i32, height: i32)
    ensures
        spec_crop_region(buffer_len, x, y, width, height) matches Ok(r) ==> {
            &&& buffer_len == width * height * 4
            &&& 0 <= x && 0 <= y
            &&& 1 <= width <= 8192 && 1 <= height <= 8192
            &&& r.width as int == width as int
            &&& r.height as int == height as int
            &&& x < 0x1_0000 ==> r.x as int == x as int
            &&& y < 0x1_0000 ==> r.y as int == y as int
        },
        (0 <= x && 0 <= y && 1 <= width <= 8192 && 1 <= height <= 8192 && buffer_len != width
            * height * 4) ==> spec_crop_region(buffer_len, x, y, width, height) == Err::<
            CropRegion,
            RequestError,
        >(RequestError::BufferSizeMismatch { expected: (width * height * 4) as usize, actual: buffer_len }),
        (0 <= x && 0 <= y && 1 <= width <= 8192 && 1 <= height <= 8192 && buffer_len == width
            * height * 4) ==> spec_crop_region(buffer_len, x, y, width, height) is Ok,
{
}

/// A framebuffer side is accepted exactly when it lies in 1..=8192, and is
/// then kept as given.
pub proof fn dimensions_accepted(width: i32, height: i32)
    ensures
        valid_dimension(width as int) <==> 1 <= width <= 8192,
        (1 <= width <= 8192 && 1 <= height <= 8192) ==> (FramebufferSize {
            width: width as u16,
            height: height as u16,
        }).width as int == width as int,
{
}

/// The listening port: `-1` disables inbound connections, 1..=65535 is
/// kept as given, and every other value is refused.
pub proof fn listen_port_values(port: i32)
    ensures
        spec_listen_port(port as int) == Some(None::<u16>) <==> port == -1,
        spec_listen_port(port as int) is None <==> (port != -1 && (port < 1 || port > 65535)),
        spec_listen_port(port as int) matches Some(Some(p)) ==> 1 <= port <= 65535 && p as int
            == port as int,
{
}

/// A copy rectangle is accepted exactly when its origin is not negative and
/// its sides are positive; values that fit keep their value.
pub proof fn copy_rect_values(x: i32, y: i32, width: i32, height: i32, dx: i32, dy: i32)
    ensures
        spec_copy_rect(x, y, width, height, dx, dy) is Ok <==> (x >= 0 && y >= 0 && width > 0
            && height > 0),
        spec_copy_rect(x, y, width, height, dx, dy) matches Ok(r) ==> {
            &&& x < 0x1_0000 ==> r.x as int == x as int
            &&& y < 0x1_0000 ==> r.y as int == y as int
            &&& width < 0x1_0000 ==> r.width as int == width as int
            &&& height < 0x1_0000 ==> r.height as int == height as int
            &&& -0x8000 <= dx < 0x8000 ==> r.dx as int == dx as int
            &&& -0x8000 <= dy < 0x8000 ==> r.dy as int == dy as int
        },
{
}

} // verus!
