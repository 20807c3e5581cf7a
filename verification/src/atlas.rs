use vstd::prelude::*;

verus! {

/// The font atlas as the GUI hands it out: one byte of coverage per pixel.
#[derive(Clone, Debug, PartialEq, Eq)]
pub struct AtlasImage {
    /// Changes whenever the GUI makes the atlas anew.
    pub generation: u64,
    pub width: usize,
    pub height: usize,
    /// The coverage of each pixel, row by row.
    pub alpha: Vec<u8>,
}

/// The pixels of a texture to create: four bytes per pixel, red, green, blue
/// and alpha.
#[derive(Clone, Debug, PartialEq, Eq)]
pub struct TextureData {
    /// The generation of the atlas that the pixels were made from.
    pub generation: u64,
    pub width: usize,
    pub height: usize,
    pub rgba: Vec<u8>,
}

/// The texture pixels for a coverage mask. The GUI paints white through the
/// mask, and colours are premultiplied by alpha, so each of the four channels
/// of a pixel is the coverage of that pixel.
pub open spec fn premultiplied_rgba(alpha: Seq<u8>) -> Seq<u8> {
    Seq::new(4 * alpha.len(), |i: int| alpha[i / 4])
}

/// Whether a texture for this generation has to be created, given the
/// generation of the texture at hand, if there is one.
pub open spec fn upload_needed(cached: Option<u64>, generation: u64) -> bool {
    cached != Some(generation)
}

/// How many textures are created when the atlas is asked for once for each
/// generation in `requests`, in turn, and each texture asked for is created
/// and kept.
pub open spec fn uploads(cached: Option<u64>, requests: Seq<u64>) -> nat
    decreases requests.len(),
{
    if requests.len() == 0 {
        0
    } else if upload_needed(cached, requests.first()) {
        1 + uploads(Some(requests.first()), requests.drop_first())
    } else {
        uploads(cached, requests.drop_first())
    }
}

/// Expands a coverage mask to texture pixels.
pub fn expand_alpha(alpha: &Vec<u8>) -> (rgba: Vec<u8>)
    ensures
        rgba@ == premultiplied_rgba(alpha@),
{
    let mut rgba: Vec<u8> = Vec::new();
    let mut i: usize = 0;
    while i < alpha.len()
        invariant
            0 <= i <= alpha.len(),
            rgba@.len() == 4 * i,
            forall|k: int| 0 <= k < rgba@.len() ==> rgba@[k] == alpha@[k / 4],
        decreases alpha.len() - i,
    {
        let a = alpha[i];
        rgba.push(a);
        rgba.push(a);
        rgba.push(a);
        rgba.push(a);
        i = i + 1;
    }
    assert(rgba@ =~= premultiplied_rgba(alpha@));
    rgba
}

/// Makes the pixels of the texture that shows the font atlas.
pub fn egui_font_image_to_tetra_texture(image: &AtlasImage) -> (data: TextureData)
    ensures
        data.generation == image.generation,
        data.width == image.width,
        data.height == image.height,
        data.rgba@ == premultiplied_rgba(image.alpha@),
{
    TextureData {
        generation: image.generation,
        width: image.width,
        height: image.height,
        rgba: expand_alpha(&image.alpha),
    }
}

/// The texture of the font atlas, once there is one. `T` is the texture of
/// the host.
pub struct FontAtlas<T> {
    texture: Option<T>,
    generation: u64,
}

impl<T> FontAtlas<T> {
    /// The texture at hand.
    pub closed spec fn current(&self) -> Option<T> {
        self.texture
    }

    /// The generation of the atlas that the texture at hand shows.
    pub closed spec fn cached(&self) -> Option<u64> {
        if self.texture is Some {
            Some(self.generation)
        } else {
            None
        }
    }

    /// No texture yet.
    pub fn new() -> (atlas: Self)
        ensures
            atlas.current() is None,
            atlas.cached() is None,
    {
        FontAtlas { texture: None, generation: 0 }
    }

    /// A generation is cached exactly when a texture is at hand.
    pub proof fn lemma_cached_iff_texture(&self)
        ensures
            self.cached() is Some <==> self.current() is Some,
    {
    }

    /// The texture at hand.
    pub fn texture(&self) -> (texture: Option<&T>)
        ensures
            texture is Some == self.current() is Some,
            texture is Some == self.cached() is Some,
            texture matches Some(t) ==> Some(*t) == self.current(),
    {
        self.texture.as_ref()
    }

    /// Sees to it that there is a texture for the atlas. If the texture at
    /// hand shows this generation of the atlas, nothing is to be done.
    /// Otherwise the pixels of the texture to create are returned; the caller
    /// creates it and hands it to `install`.
    ///
    /// Atlases are told apart by their generation, never by their pixels.
    pub fn ensure_atlas_texture(&self, image: &AtlasImage) -> (upload: Option<TextureData>)
        ensures
            upload is Some == upload_needed(self.cached(), image.generation),
            self.current() is None ==> upload is Some,
            upload is None ==> self.current() is Some,
            upload matches Some(data) ==> {
                &&& data.generation == image.generation
                &&& data.width == image.width
                &&& data.height == image.height
                &&& data.rgba@ == premultiplied_rgba(image.alpha@)
            },
    {
        if self.texture.is_some() && self.generation == image.generation {
            None
        } else {
            Some(egui_font_image_to_tetra_texture(image))
        }
    }

    /// Keeps the texture that was created for an atlas of this generation, in
    /// place of the one at hand.
    pub fn install(&mut self, generation: u64, texture: T)
        ensures
            final(self).current() == Some(texture),
            final(self).cached() == Some(generation),
    {
        self.texture = Some(texture);
        self.generation = generation;
    }
}

/// Asking again for the generation that was just seen to creates nothing.
pub proof fn lemma_same_generation_needs_no_upload(generation: u64)
    ensures
        !upload_needed(Some(generation), generation),
{
}

/// Asking for one generation over and over creates one texture, at the first
/// time, and none if the texture at hand shows that generation already.
pub proof fn lemma_one_upload_per_generation(cached: Option<u64>, generation: u64, times: nat)
    ensures
        uploads(cached, Seq::new(times, |i: int| generation)) == if times == 0 || cached == Some(
            generation,
        ) {
            0nat
        } else {
            1nat
        },
    decreases times,
{
    let requests = Seq::new(times, |i: int| generation);
    if times > 0 {
        let rest = Seq::new((times - 1) as nat, |i: int| generation);
        assert(requests.drop_first() =~= rest);
        lemma_one_upload_per_generation(Some(generation), generation, (times - 1) as nat);
        lemma_one_upload_per_generation(cached, generation, (times - 1) as nat);
    }
}

} // verus!
