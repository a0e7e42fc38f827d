use vstd::prelude::*;

verus! {

/// EGL constants, as the headers fix them.
pub const RED_SIZE: u32 = 0x3024;

pub const GREEN_SIZE: u32 = 0x3023;

pub const BLUE_SIZE: u32 = 0x3022;

pub const ALPHA_SIZE: u32 = 0x3021;

pub const CONFORMANT: u32 = 0x3042;

pub const RENDERABLE_TYPE: u32 = 0x3040;

pub const OPENGL_ES3_BIT: u32 = 0x40;

pub const SAMPLE_BUFFERS: u32 = 0x3032;

pub const SAMPLES: u32 = 0x3031;

pub const ATTRIB_NONE: u32 = 0x3038;

pub const CONTEXT_MAJOR_VERSION: u32 = 0x3098;

/// A failed platform call, carrying the raw platform error code.
#[derive(Debug, Clone, Copy, PartialEq, Eq, Structural)]
pub enum Error {
    Raw(u32),
}

impl Error {
    /// The same failure in the pipeline's taxonomy: a platform API error
    /// carrying the raw code.
    pub fn into_platform_error(self) -> (r: crate::error::Error)
        ensures
            self matches Error::Raw(code) ==> r == crate::error::Error::PlatformApi(code),
    {
        match self {
            Error::Raw(code) => crate::error::Error::PlatformApi(code),
        }
    }
}

/// Maps a checked call's status to a structured result: the platform's false
/// sentinel becomes an error carrying the platform code fetched after the
/// call; anything else is success.
pub fn check_status(status: u32, error_code: u32) -> (r: Result<(), Error>)
    ensures
        status != 0 <==> r is Ok,
        status == 0 ==> r == Err::<(), Error>(Error::Raw(error_code)),
{
    if status == 0 {
        Err(Error::Raw(error_code))
    } else {
        Ok(())
    }
}

/// The framebuffer configuration the pipeline asks for: 8-bit RGBA (the alpha
/// size enables transparency), ES3 conformance, and a 4-sample multisample
/// hint, as attribute/value pairs ending in the terminator.
pub fn config_attributes() -> (r: Vec<u32>)
    ensures
        r@ =~= seq![
            RED_SIZE,
            8u32,
            GREEN_SIZE,
            8u32,
            BLUE_SIZE,
            8u32,
            ALPHA_SIZE,
            8u32,
            CONFORMANT,
            OPENGL_ES3_BIT,
            RENDERABLE_TYPE,
            OPENGL_ES3_BIT,
            SAMPLE_BUFFERS,
            1u32,
            SAMPLES,
            4u32,
            ATTRIB_NONE,
        ],
{
    let mut attrs: Vec<u32> = Vec::new();
    attrs.push(RED_SIZE);
    attrs.push(8);
    attrs.push(GREEN_SIZE);
    attrs.push(8);
    attrs.push(BLUE_SIZE);
    attrs.push(8);
    attrs.push(ALPHA_SIZE);
    attrs.push(8);
    attrs.push(CONFORMANT);
    attrs.push(OPENGL_ES3_BIT);
    attrs.push(RENDERABLE_TYPE);
    attrs.push(OPENGL_ES3_BIT);
    attrs.push(SAMPLE_BUFFERS);
    attrs.push(1);
    attrs.push(SAMPLES);
    attrs.push(4);
    attrs.push(ATTRIB_NONE);
    attrs
}

/// The context attribute list: an ES3 context.
pub fn context_attributes() -> (r: Vec<u32>)
    ensures
        r@ =~= seq![CONTEXT_MAJOR_VERSION, 3u32, ATTRIB_NONE],
{
    let mut attrs: Vec<u32> = Vec::new();
    attrs.push(CONTEXT_MAJOR_VERSION);
    attrs.push(3);
    attrs.push(ATTRIB_NONE);
    attrs
}

/// The tie-break policy over the platform's matching configs: the first
/// config returned, with no further ranking. An empty list is the distinct
/// "no compatible config" condition, which `None` stands for, as opposed to a
/// failed API call.
pub fn choose_config(configs: &Vec<u64>) -> (r: Option<u64>)
    ensures
        configs@.len() == 0 <==> r is None,
        configs@.len() > 0 ==> r == Some(configs@[0]),
{
    if configs.len() == 0 {
        None
    } else {
        Some(configs[0])
    }
}

} // verus!
