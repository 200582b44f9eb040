use vstd::prelude::*;

use crate::decode::{decode_contents, rgb8_of, DecodedImage, LoadError};
use crate::quad::{quad_spec, quad_vertices, Vertex, QUAD_VERTEX_COUNT};

verus! {

/// The drawable area, in pixels.
#[derive(Clone, Copy, Debug, PartialEq, Eq, Structural)]
pub struct Viewport {
    pub width: u32,
    pub height: u32,
}

/// An exact quotient `num / den`, handed to the shader as `num as f32 / den as f32`.
#[derive(Clone, Copy, Debug, PartialEq, Eq, Structural)]
pub struct Ratio {
    pub num: u32,
    pub den: u32,
}

/// The `sizeInfo` uniform of the background shader: how many viewports one
/// copy of the image spans on each axis, and the opacity to draw it with.
#[derive(Clone, Copy, Debug)]
pub struct SizeUniform<A> {
    pub scale_x: Ratio,
    pub scale_y: Ratio,
    pub alpha: A,
}

/// The image that the texture stands for, or the record of a failed load.
#[derive(Clone, Debug)]
pub enum BackgroundImage {
    Loaded { path: String, width: u32, height: u32 },
    Failed { path: String },
}

/// What a background image is: the path it came from, and its size in pixels
/// when it was loaded (`None` when loading it failed).
pub struct ImageModel {
    pub path: Seq<char>,
    pub size: Option<(u32, u32)>,
}

impl View for BackgroundImage {
    type V = ImageModel;

    open spec fn view(&self) -> ImageModel {
        match self {
            BackgroundImage::Loaded { path, width, height } => ImageModel {
                path: path@,
                size: Some((*width, *height)),
            },
            BackgroundImage::Failed { path } => ImageModel { path: path@, size: None },
        }
    }
}

impl BackgroundImage {
    pub fn path(&self) -> (r: &String)
        ensures
            r@ == self@.path,
    {
        match self {
            BackgroundImage::Loaded { path, .. } => path,
            BackgroundImage::Failed { path } => path,
        }
    }
}

/// What the caller has to do after a background change.
#[derive(Debug)]
pub enum BackgroundUpdate {
    /// The path was already current: nothing was read, decoded or changed.
    Unchanged,
    /// The image was decoded: replace the texture's contents with it.
    Upload(DecodedImage),
    /// The image could not be loaded: report the error. The path is recorded
    /// and will not be tried again until another path is requested.
    Failed(LoadError),
}

/// Blend factors used by the background pass.
#[derive(Clone, Copy, Debug, PartialEq, Eq, Structural)]
pub enum BlendFactor {
    One,
    SrcAlpha,
    OneMinusSrcAlpha,
    Src1Color,
    OneMinusSrc1Color,
}

/// Texture parameters set once on the background texture.
#[derive(Clone, Copy, Debug, PartialEq, Eq, Structural)]
pub enum TextureParameter {
    WrapS,
    WrapT,
    MinFilter,
    MagFilter,
}

/// Values given to those texture parameters.
#[derive(Clone, Copy, Debug, PartialEq, Eq, Structural)]
pub enum TextureValue {
    Repeat,
    Nearest,
}

/// One step of setting up the background's graphics resources.
#[derive(Clone, Copy, Debug, PartialEq, Eq, Structural)]
pub enum SetupCommand {
    CreateVertexArray,
    CreateBuffer,
    BindVertexArray,
    BindArrayBuffer,
    /// Upload the quad's vertices, each as four floats `(x, y, u, v)`, as static data.
    UploadQuad,
    /// Describe attribute `index`: `components` floats, every `stride` floats,
    /// starting `offset` floats into each vertex.
    VertexAttribute { index: u32, components: i32, stride: i32, offset: usize },
    EnableAttribute { index: u32 },
    CreateTexture,
    BindTexture,
    SetTextureParameter { parameter: TextureParameter, value: TextureValue },
    UnbindVertexArray,
    UnbindArrayBuffer,
    UnbindTexture,
}

/// One step of drawing the background; `A` is the opacity's type.
#[derive(Clone, Copy, Debug)]
pub enum DrawCommand<A> {
    BlendFuncSeparate {
        src_rgb: BlendFactor,
        dst_rgb: BlendFactor,
        src_alpha: BlendFactor,
        dst_alpha: BlendFactor,
    },
    BindVertexArray,
    UseProgram,
    BindTexture,
    SetSizeInfo(SizeUniform<A>),
    DrawTriangles { first: i32, count: i32 },
    UnbindTexture,
    UnbindVertexArray,
    UnuseProgram,
    BlendFunc { src: BlendFactor, dst: BlendFactor },
}

/// Host-side state of the background layer.
pub struct BackgroundRenderer {
    vertices: [Vertex; 6],
    background_image: Option<BackgroundImage>,
}

/// What the renderer is: its vertices and the current background, if any.
pub struct RendererModel {
    pub vertices: Seq<Vertex>,
    pub image: Option<ImageModel>,
}

impl View for BackgroundRenderer {
    type V = RendererModel;

    closed spec fn view(&self) -> RendererModel {
        RendererModel {
            vertices: self.vertices@,
            image: match self.background_image {
                Some(i) => Some(i@),
                None => None,
            },
        }
    }
}

/// `path` is the background already in place, loaded or failed.
pub open spec fn is_current(m: RendererModel, path: Seq<char>) -> bool {
    m.image matches Some(i) && i.path == path
}

/// The state after a load of `path` was attempted with result `r`.
pub open spec fn load_post(old: RendererModel, path: Seq<char>, new: RendererModel, r: BackgroundUpdate) -> bool {
    &&& new.vertices == old.vertices
    &&& match r {
        BackgroundUpdate::Unchanged => false,
        BackgroundUpdate::Upload(d) => d.wf() && new.image == Some(
            ImageModel { path, size: Some((d.width, d.height)) },
        ),
        BackgroundUpdate::Failed(_) => new.image == Some(ImageModel { path, size: None }),
    }
}

/// How the update of `path` follows from what the reader returned: a read
/// error is handed on unchanged; read bytes are uploaded exactly when they
/// decode, as the decoded image, and otherwise give a decode error.
pub open spec fn read_outcome(path: Seq<char>, contents: Result<Vec<u8>, String>, r: BackgroundUpdate) -> bool {
    &&& contents matches Err(m) ==> r == BackgroundUpdate::Failed(LoadError::Read(m))
    &&& contents matches Ok(b) ==> (r is Upload <==> rgb8_of(path, b@) is Some)
    &&& contents matches Ok(b) ==> (r matches BackgroundUpdate::Failed(e) ==> e is Decode)
    &&& contents matches Ok(b) ==> (r matches BackgroundUpdate::Upload(d) ==> rgb8_of(path, b@) == Some(
        (d.width, d.height, d.pixels@),
    ))
}

/// The state after `set_background(path)`: nothing happens when `path` is
/// current; otherwise it is loaded, successfully or not.
pub open spec fn set_background_post(
    old: RendererModel,
    path: Seq<char>,
    new: RendererModel,
    r: BackgroundUpdate,
) -> bool {
    if is_current(old, path) {
        r is Unchanged && new == old
    } else {
        load_post(old, path, new, r)
    }
}

/// `scale_x = aspect_ratio * height / viewport_width = width / viewport_width`
/// and `scale_y = height / viewport_height`. For a failed load both are `0 / 1`,
/// zero whatever the viewport, a zero-sized one included.
pub open spec fn size_uniform<A>(img: ImageModel, viewport: Viewport, alpha: A) -> SizeUniform<A> {
    match img.size {
        Some((w, h)) => SizeUniform {
            scale_x: Ratio { num: w, den: viewport.width },
            scale_y: Ratio { num: h, den: viewport.height },
            alpha,
        },
        None => SizeUniform {
            scale_x: Ratio { num: 0, den: 1 },
            scale_y: Ratio { num: 0, den: 1 },
            alpha,
        },
    }
}

/// The uniform a frame sets: none without a background.
pub open spec fn uniform_for<A>(m: RendererModel, viewport: Viewport, alpha: A) -> Option<SizeUniform<A>> {
    match m.image {
        Some(img) => Some(size_uniform(img, viewport, alpha)),
        None => None,
    }
}

/// Vertex array and buffer holding the quad (position then texture
/// coordinate, four values per vertex), a texture that repeats and samples the
/// nearest texel, and every binding released at the end.
pub open spec fn setup_spec() -> Seq<SetupCommand> {
    seq![
        SetupCommand::CreateVertexArray,
        SetupCommand::CreateBuffer,
        SetupCommand::BindVertexArray,
        SetupCommand::BindArrayBuffer,
        SetupCommand::UploadQuad,
        SetupCommand::VertexAttribute { index: 0, components: 2, stride: 4, offset: 0 },
        SetupCommand::EnableAttribute { index: 0 },
        SetupCommand::VertexAttribute { index: 1, components: 2, stride: 4, offset: 2 },
        SetupCommand::EnableAttribute { index: 1 },
        SetupCommand::CreateTexture,
        SetupCommand::BindTexture,
        SetupCommand::SetTextureParameter { parameter: TextureParameter::WrapS, value: TextureValue::Repeat },
        SetupCommand::SetTextureParameter { parameter: TextureParameter::WrapT, value: TextureValue::Repeat },
        SetupCommand::SetTextureParameter { parameter: TextureParameter::MinFilter, value: TextureValue::Nearest },
        SetupCommand::SetTextureParameter { parameter: TextureParameter::MagFilter, value: TextureValue::Nearest },
        SetupCommand::UnbindVertexArray,
        SetupCommand::UnbindArrayBuffer,
        SetupCommand::UnbindTexture,
    ]
}

/// Alpha-over blending on, the quad, program and texture bound, the uniform
/// set (when there is a background), six vertices drawn, everything unbound
/// and the pipeline's usual dual-source blending restored.
pub open spec fn draw_spec<A>(m: RendererModel, viewport: Viewport, alpha: A) -> Seq<DrawCommand<A>> {
    let head = seq![
        DrawCommand::BlendFuncSeparate {
            src_rgb: BlendFactor::SrcAlpha,
            dst_rgb: BlendFactor::OneMinusSrcAlpha,
            src_alpha: BlendFactor::SrcAlpha,
            dst_alpha: BlendFactor::One,
        },
        DrawCommand::BindVertexArray,
        DrawCommand::UseProgram,
        DrawCommand::BindTexture,
    ];
    let uniform = match uniform_for(m, viewport, alpha) {
        Some(u) => seq![DrawCommand::SetSizeInfo(u)],
        None => Seq::empty(),
    };
    let tail = seq![
        DrawCommand::DrawTriangles { first: 0, count: 6 },
        DrawCommand::UnbindTexture,
        DrawCommand::UnbindVertexArray,
        DrawCommand::UnuseProgram,
        DrawCommand::BlendFunc { src: BlendFactor::Src1Color, dst: BlendFactor::OneMinusSrc1Color },
    ];
    head + uniform + tail
}

impl BackgroundRenderer {
    /// The quad stays the fixed one for the renderer's whole life.
    pub open spec fn wf(&self) -> bool {
        self@.vertices == quad_spec()
    }

    /// A renderer with its quad and no background.
    pub fn new() -> (r: Self)
        ensures
            r.wf(),
            r@.image is None,
    {
        BackgroundRenderer { vertices: quad_vertices(), background_image: None }
    }

    /// The quad's vertices.
    pub fn vertices(&self) -> (r: [Vertex; 6])
        ensures
            r@ == self@.vertices,
    {
        self.vertices
    }

    /// The current background, if any.
    pub fn background_image(&self) -> (r: &Option<BackgroundImage>)
        ensures
            r matches Some(i) ==> self@.image == Some(i@),
            r is None <==> self@.image is None,
    {
        &self.background_image
    }

    /// True once a background has been requested, whether or not it loaded.
    pub fn should_draw(&self) -> (r: bool)
        ensures
            r == self@.image is Some,
    {
        self.background_image.is_some()
    }

    /// Records the outcome of loading `path`.
    pub fn finish_load(&mut self, path: &String, outcome: Result<DecodedImage, LoadError>) -> (r: BackgroundUpdate)
        requires
            outcome matches Ok(d) ==> d.wf(),
        ensures
            load_post(old(self)@, path@, final(self)@, r),
            outcome matches Ok(d) ==> r == BackgroundUpdate::Upload(d),
            outcome matches Err(e) ==> r == BackgroundUpdate::Failed(e),
    {
        match outcome {
            Ok(img) => {
                self.background_image = Some(
                    BackgroundImage::Loaded { path: path.clone(), width: img.width, height: img.height },
                );
                BackgroundUpdate::Upload(img)
            },
            Err(e) => {
                self.background_image = Some(BackgroundImage::Failed { path: path.clone() });
                BackgroundUpdate::Failed(e)
            },
        }
    }

    /// Makes `path` the background. When it already is (loaded or failed),
    /// nothing is read or decoded. Otherwise `read` supplies the file's bytes,
    /// which are decoded to RGB; the outcome is recorded either way.
    pub fn set_background<F: FnOnce() -> Result<Vec<u8>, String>>(&mut self, path: &String, read: F) -> (r: BackgroundUpdate)
        requires
            read.requires(()),
        ensures
            set_background_post(old(self)@, path@, final(self)@, r),
            !is_current(old(self)@, path@) ==> exists|contents: Result<Vec<u8>, String>|
                #[trigger] read.ensures((), contents) && read_outcome(path@, contents, r),
    {
        if let Some(i) = &self.background_image {
            if i.path().eq(path) {
                return BackgroundUpdate::Unchanged;
            }
        }
        let contents = read();
        let outcome = decode_contents(path.as_str(), contents);
        self.finish_load(path, outcome)
    }

    /// The shader's `sizeInfo` for this viewport and opacity, or `None`
    /// without a background.
    pub fn update_uniforms<A>(&self, viewport: &Viewport, alpha: A) -> (r: Option<SizeUniform<A>>)
        ensures
            r == uniform_for(self@, *viewport, alpha),
    {
        match &self.background_image {
            Some(BackgroundImage::Loaded { width, height, .. }) => Some(
                SizeUniform {
                    scale_x: Ratio { num: *width, den: viewport.width },
                    scale_y: Ratio { num: *height, den: viewport.height },
                    alpha,
                },
            ),
            Some(BackgroundImage::Failed { .. }) => Some(
                SizeUniform {
                    scale_x: Ratio { num: 0, den: 1 },
                    scale_y: Ratio { num: 0, den: 1 },
                    alpha,
                },
            ),
            None => None,
        }
    }

    /// The commands that create the quad's buffers and the texture, leaving
    /// nothing bound.
    pub fn setup_commands(&self) -> (r: Vec<SetupCommand>)
        ensures
            r@ == setup_spec(),
    {
        let r = vec![
            SetupCommand::CreateVertexArray,
            SetupCommand::CreateBuffer,
            SetupCommand::BindVertexArray,
            SetupCommand::BindArrayBuffer,
            SetupCommand::UploadQuad,
            SetupCommand::VertexAttribute { index: 0, components: 2, stride: 4, offset: 0 },
            SetupCommand::EnableAttribute { index: 0 },
            SetupCommand::VertexAttribute { index: 1, components: 2, stride: 4, offset: 2 },
            SetupCommand::EnableAttribute { index: 1 },
            SetupCommand::CreateTexture,
            SetupCommand::BindTexture,
            SetupCommand::SetTextureParameter { parameter: TextureParameter::WrapS, value: TextureValue::Repeat },
            SetupCommand::SetTextureParameter { parameter: TextureParameter::WrapT, value: TextureValue::Repeat },
            SetupCommand::SetTextureParameter { parameter: TextureParameter::MinFilter, value: TextureValue::Nearest },
            SetupCommand::SetTextureParameter { parameter: TextureParameter::MagFilter, value: TextureValue::Nearest },
            SetupCommand::UnbindVertexArray,
            SetupCommand::UnbindArrayBuffer,
            SetupCommand::UnbindTexture,
        ];
        assert(r@ =~= setup_spec());
        r
    }

    /// The commands of one frame's background pass.
    pub fn draw<A>(&self, viewport: &Viewport, alpha: A) -> (r: Vec<DrawCommand<A>>)
        ensures
            r@ == draw_spec(self@, *viewport, alpha),
    {
        let mut r: Vec<DrawCommand<A>> = Vec::new();
        r.push(
            DrawCommand::BlendFuncSeparate {
                src_rgb: BlendFactor::SrcAlpha,
                dst_rgb: BlendFactor::OneMinusSrcAlpha,
                src_alpha: BlendFactor::SrcAlpha,
                dst_alpha: BlendFactor::One,
            },
        );
        r.push(DrawCommand::BindVertexArray);
        r.push(DrawCommand::UseProgram);
        r.push(DrawCommand::BindTexture);
        if let Some(u) = self.update_uniforms(viewport, alpha) {
            r.push(DrawCommand::SetSizeInfo(u));
        }
        let count: usize = QUAD_VERTEX_COUNT;
        r.push(DrawCommand::DrawTriangles { first: 0, count: count as i32 });
        r.push(DrawCommand::UnbindTexture);
        r.push(DrawCommand::UnbindVertexArray);
        r.push(DrawCommand::UnuseProgram);
        r.push(DrawCommand::BlendFunc { src: BlendFactor::Src1Color, dst: BlendFactor::OneMinusSrc1Color });
        assert(r@ =~= draw_spec(self@, *viewport, alpha));
        r
    }
}

/// Requesting the same path twice in a row: the second request reads,
/// decodes and changes nothing, whatever the first one did.
pub proof fn lemma_repeated_request_is_cached(
    s0: RendererModel,
    path: Seq<char>,
    s1: RendererModel,
    r1: BackgroundUpdate,
    s2: RendererModel,
    r2: BackgroundUpdate,
)
    requires
        set_background_post(s0, path, s1, r1),
        set_background_post(s1, path, s2, r2),
    ensures
        r2 is Unchanged,
        s2 == s1,
{
}

/// A path that failed to load is recorded: the failure is reported once, and
/// asking for the same path again reports nothing and tries no new load.
pub proof fn lemma_failure_is_cached(
    s0: RendererModel,
    path: Seq<char>,
    s1: RendererModel,
    r1: BackgroundUpdate,
    s2: RendererModel,
    r2: BackgroundUpdate,
)
    requires
        set_background_post(s0, path, s1, r1),
        r1 is Failed,
        set_background_post(s1, path, s2, r2),
    ensures
        !is_current(s0, path),
        s1.image == Some(ImageModel { path, size: None }),
        r2 is Unchanged,
        s2 == s1,
{
}

/// After a request for one path, a request for a different path makes exactly
/// one new load attempt, and that path becomes current.
pub proof fn lemma_new_path_reloads(
    s0: RendererModel,
    p1: Seq<char>,
    s1: RendererModel,
    r1: BackgroundUpdate,
    p2: Seq<char>,
    s2: RendererModel,
    r2: BackgroundUpdate,
)
    requires
        set_background_post(s0, p1, s1, r1),
        p1 != p2,
        set_background_post(s1, p2, s2, r2),
    ensures
        !(r2 is Unchanged),
        is_current(s2, p2),
{
}

/// Once any background has been requested, loaded or not, there is one to draw.
pub proof fn lemma_background_present_after_request(
    s0: RendererModel,
    path: Seq<char>,
    s1: RendererModel,
    r: BackgroundUpdate,
)
    requires
        set_background_post(s0, path, s1, r),
    ensures
        s1.image is Some,
        is_current(s1, path),
{
}

/// Requests never touch the quad: it stays the fixed one after construction.
pub proof fn lemma_request_keeps_quad(
    s0: RendererModel,
    path: Seq<char>,
    s1: RendererModel,
    r: BackgroundUpdate,
)
    requires
        set_background_post(s0, path, s1, r),
        s0.vertices == quad_spec(),
    ensures
        s1.vertices == quad_spec(),
{
}

/// For a failed load the uniform is `(0, 0, opacity)` for every viewport:
/// both quotients are `0 / 1`, so a zero-sized viewport gives zero too.
pub proof fn lemma_failed_load_uniform<A>(path: Seq<char>, viewport: Viewport, alpha: A)
    ensures
        size_uniform(ImageModel { path, size: None }, viewport, alpha).scale_x == (Ratio { num: 0, den: 1 }),
        size_uniform(ImageModel { path, size: None }, viewport, alpha).scale_y == (Ratio { num: 0, den: 1 }),
        size_uniform(ImageModel { path, size: None }, viewport, alpha).alpha == alpha,
{
}

} // verus!
