//! An image built from a Dockerfile and accompanying material rather than
//! pulled: the description accumulates here; the build itself is a runtime
//! call whose outcome is handed back in.

use vstd::prelude::*;
use crate::copy_source::RsCopyDataSource;
use crate::errors::Error;
use crate::image::RsGenericImage;
use crate::image::rs_generic_image_new;
use crate::lifecycle::RuntimeCallError;
use crate::path::RsPath;

verus! {

/// The description of an image still to be built.
#[derive(Debug)]
pub struct RsGenericBuildableImage {
    pub name: String,
    pub tag: String,
    /// Where the Dockerfile comes from: a host file or literal bytes.
    pub dockerfile: Option<RsCopyDataSource>,
    /// Material placed into the build context, each under a target path.
    pub files: Vec<(String, RsCopyDataSource)>,
}

pub fn rs_generic_buildable_image_new(name: String, tag: String) -> (r: RsGenericBuildableImage)
    ensures
        r.name == name,
        r.tag == tag,
        r.dockerfile is None,
        r.files@ == Seq::<(String, RsCopyDataSource)>::empty(),
{
    let r = RsGenericBuildableImage { name, tag, dockerfile: None, files: Vec::new() };
    proof {
        assert(r.files@ =~= Seq::<(String, RsCopyDataSource)>::empty());
    }
    r
}

/// Takes the Dockerfile from a host file.
pub fn rs_generic_buildable_image_with_dockerfile(
    image: RsGenericBuildableImage,
    source: RsPath,
) -> (r: RsGenericBuildableImage)
    ensures
        r == (RsGenericBuildableImage {
            dockerfile: Some(RsCopyDataSource::File { path: source }),
            ..image
        }),
{
    RsGenericBuildableImage { dockerfile: Some(RsCopyDataSource::File { path: source }), ..image }
}

/// Takes the Dockerfile from literal text.
pub fn rs_generic_buildable_image_with_dockerfile_string(
    image: RsGenericBuildableImage,
    content: String,
) -> (r: RsGenericBuildableImage)
    ensures
        r.name == image.name,
        r.tag == image.tag,
        r.files == image.files,
        r.dockerfile matches Some(RsCopyDataSource::Data { bytes }) && bytes@
            == vstd::utf8::encode_utf8(content@),
{
    let bytes = content.as_str().as_bytes_vec();
    RsGenericBuildableImage { dockerfile: Some(RsCopyDataSource::Data { bytes }), ..image }
}

/// Adds a host file to the build context under the given target path.
pub fn rs_generic_buildable_image_with_file(
    image: RsGenericBuildableImage,
    source: RsPath,
    target: String,
) -> (r: RsGenericBuildableImage)
    ensures
        r.name == image.name,
        r.tag == image.tag,
        r.dockerfile == image.dockerfile,
        r.files@ == image.files@.push((target, RsCopyDataSource::File { path: source })),
{
    let mut r = image;
    r.files.push((target, RsCopyDataSource::File { path: source }));
    r
}

/// Adds literal bytes to the build context under the given target path.
pub fn rs_generic_buildable_image_with_data(
    image: RsGenericBuildableImage,
    data: Vec<u8>,
    target: String,
) -> (r: RsGenericBuildableImage)
    ensures
        r.name == image.name,
        r.tag == image.tag,
        r.dockerfile == image.dockerfile,
        r.files@ == image.files@.push((target, RsCopyDataSource::Data { bytes: data })),
{
    let mut r = image;
    r.files.push((target, RsCopyDataSource::Data { bytes: data }));
    r
}

/// Concludes a build from the image provider's outcome: on success the
/// built image, addressable by its name and tag; on failure a typed error,
/// with no image and no container created.
pub fn rs_generic_buildable_image_build(
    image: RsGenericBuildableImage,
    outcome: Result<(), RuntimeCallError>,
) -> (r: Result<RsGenericImage, Error>)
    ensures
        match outcome {
            Ok(()) => r matches Ok(built) && built.name == image.name && built.tag == image.tag
                && built.entrypoint is None && built.exposed_ports@ == Seq::<
                crate::port::RsContainerPort,
            >::empty() && built.ready_conditions@ == Seq::<crate::wait::RsWaitFor>::empty(),
            Err(RuntimeCallError::Refused) => r == Err::<RsGenericImage, Error>(
                Error::ImageBuildFailed,
            ),
            Err(RuntimeCallError::Unreachable) => r == Err::<RsGenericImage, Error>(
                Error::RuntimeUnavailable,
            ),
        },
{
    match outcome {
        Ok(()) => Ok(rs_generic_image_new(image.name, image.tag)),
        Err(RuntimeCallError::Refused) => Err(Error::ImageBuildFailed),
        Err(RuntimeCallError::Unreachable) => Err(Error::RuntimeUnavailable),
    }
}

pub fn rs_generic_buildable_image_destroy(image: RsGenericBuildableImage) {
    let _ = image;
}

} // verus!
