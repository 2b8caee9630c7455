use vstd::prelude::*;

verus! {

/// Physical pixel dimensions of a window or a presentation surface.
#[derive(Clone, Copy, Debug, PartialEq, Eq, Structural)]
pub struct Extent {
    pub width: u32,
    pub height: u32,
}

impl Extent {
    /// A surface may only be configured with both dimensions non-zero.
    pub open spec fn has_area(self) -> bool {
        self.width > 0 && self.height > 0
    }

    pub fn new(width: u32, height: u32) -> (r: Extent)
        ensures
            r.width == width,
            r.height == height,
    {
        Extent { width, height }
    }

    pub fn is_presentable(&self) -> (r: bool)
        ensures
            r == self.has_area(),
    {
        self.width > 0 && self.height > 0
    }
}

/// When a rendered image becomes visible relative to the display refresh.
#[derive(Clone, Copy, Debug, PartialEq, Eq, Structural)]
pub enum PresentMode {
    Immediate,
    Mailbox,
    /// Locked to vertical sync.
    Fifo,
}

/// How the images of a surface may be used.
#[derive(Clone, Copy, Debug, PartialEq, Eq, Structural)]
pub enum TextureUsage {
    CopySrc,
    CopyDst,
    TextureBinding,
    StorageBinding,
    RenderAttachment,
}

/// The swap configuration negotiated between a device and a surface.
/// `F` is the pixel format, which only the GPU layer interprets.
#[derive(Debug)]
pub struct SurfaceConfig<F> {
    pub format: F,
    pub usage: TextureUsage,
    pub width: u32,
    pub height: u32,
    pub present_mode: PresentMode,
}

/// The configuration that a surface of the given format and size receives:
/// render-attachment usage, vsync-locked presentation.
pub open spec fn config_for<F>(format: F, size: Extent) -> SurfaceConfig<F> {
    SurfaceConfig {
        format,
        usage: TextureUsage::RenderAttachment,
        width: size.width,
        height: size.height,
        present_mode: PresentMode::Fifo,
    }
}

/// A configured presentation surface: its current configuration and the last
/// size it was configured with.
pub struct SurfaceState<F> {
    config: SurfaceConfig<F>,
    size: Extent,
}

impl<F> SurfaceState<F> {
    pub closed spec fn spec_config(&self) -> SurfaceConfig<F> {
        self.config
    }

    pub closed spec fn spec_size(&self) -> Extent {
        self.size
    }

    /// The configuration always describes the recorded size, which has area.
    pub open spec fn wf(&self) -> bool {
        &&& self.spec_size().has_area()
        &&& self.spec_config() == config_for(self.spec_config().format, self.spec_size())
    }

    /// The state after a resize to `new_size`: a zero-area size leaves it as it is.
    pub closed spec fn resized(self, new_size: Extent) -> SurfaceState<F> {
        if new_size.has_area() {
            SurfaceState { config: config_for(self.config.format, new_size), size: new_size }
        } else {
            self
        }
    }

    /// Resizing keeps the state well formed. A size without area changes
    /// nothing; a size with area becomes the recorded size and the size of the
    /// configuration, whose other fields stay; resizing to the recorded size
    /// changes nothing.
    pub proof fn lemma_resized(self, new_size: Extent)
        requires
            self.wf(),
        ensures
            self.resized(new_size).wf(),
            !new_size.has_area() ==> self.resized(new_size) == self,
            new_size == self.spec_size() ==> self.resized(new_size) == self,
            new_size.has_area() ==> {
                &&& self.resized(new_size).spec_size() == new_size
                &&& self.resized(new_size).spec_config() == config_for(self.spec_config().format, new_size)
            },
    {
    }

    /// Builds the state of a surface of the given preferred format for a window
    /// of the given size. A window without area gets no configuration.
    pub fn initialize(format: F, size: Extent) -> (r: Option<Self>)
        ensures
            r is Some <==> size.has_area(),
            r matches Some(s) ==> {
                &&& s.wf()
                &&& s.spec_size() == size
                &&& s.spec_config() == config_for(format, size)
            },
    {
        if size.is_presentable() {
            let config = SurfaceConfig {
                format,
                usage: TextureUsage::RenderAttachment,
                width: size.width,
                height: size.height,
                present_mode: PresentMode::Fifo,
            };
            Some(SurfaceState { config, size })
        } else {
            None
        }
    }

    /// Records a new size. Returns whether the configuration must be applied
    /// to the device again; a zero-area size changes nothing.
    pub fn reconfigure(&mut self, new_size: Extent) -> (applied: bool)
        requires
            old(self).wf(),
        ensures
            final(self).wf(),
            *final(self) == old(self).resized(new_size),
            applied == new_size.has_area(),
            !new_size.has_area() ==> *final(self) == *old(self),
            new_size == old(self).spec_size() ==> *final(self) == *old(self),
            new_size.has_area() ==> {
                &&& final(self).spec_size() == new_size
                &&& final(self).spec_config() == config_for(old(self).spec_config().format, new_size)
            },
    {
        if new_size.is_presentable() {
            self.size = new_size;
            self.config.width = new_size.width;
            self.config.height = new_size.height;
            true
        } else {
            false
        }
    }

    pub fn size(&self) -> (r: Extent)
        ensures
            r == self.spec_size(),
    {
        self.size
    }

    pub fn config(&self) -> (r: &SurfaceConfig<F>)
        ensures
            *r == self.spec_config(),
    {
        &self.config
    }
}

} // verus!
