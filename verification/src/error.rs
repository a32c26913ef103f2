use vstd::prelude::*;

verus! {

/// Why an operation on the GPU front end was refused.
#[derive(Clone, Copy, Debug, PartialEq, Eq, Structural)]
pub enum GpuError {
    /// The backend reported no physical adapter.
    NoAdapter,
    /// No queue family offers graphics work and presentation together.
    NoCompatibleQueueFamily,
    /// No memory type is allowed by the requirements and has the wanted properties.
    NoCompatibleMemoryType,
    /// The device failed to create or allocate a resource.
    ResourceCreation,
    /// The descriptor pool could not supply another set.
    DescriptorPoolExhausted,
    /// A shader stage did not compile.
    ShaderCompilation,
    /// A request does not fit the objects it is aimed at.
    Configuration,
    /// A texture or mesh does not have the shape its header claims.
    Asset,
    /// A size does not fit the integer type the device takes it in.
    SizeOverflow,
}

impl GpuError {
    /// What to tell the user.
    pub open spec fn message_spec(self) -> Seq<char> {
        match self {
            GpuError::NoAdapter => "no graphics adapter was found"@,
            GpuError::NoCompatibleQueueFamily => "no queue family can draw and present to the surface"@,
            GpuError::NoCompatibleMemoryType => "no memory type fits the resource"@,
            GpuError::ResourceCreation => "the device could not create a resource"@,
            GpuError::DescriptorPoolExhausted => "the descriptor pool has no set left"@,
            GpuError::ShaderCompilation => "a shader did not compile"@,
            GpuError::Configuration => "a request does not fit the objects it is aimed at"@,
            GpuError::Asset => "the pixels of an image do not fill it"@,
            GpuError::SizeOverflow => "a size is beyond what the device can take"@,
        }
    }

    /// What to tell the user.
    pub fn message(self) -> (r: &'static str)
        ensures
            r@ == self.message_spec(),
    {
        match self {
            GpuError::NoAdapter => "no graphics adapter was found",
            GpuError::NoCompatibleQueueFamily => "no queue family can draw and present to the surface",
            GpuError::NoCompatibleMemoryType => "no memory type fits the resource",
            GpuError::ResourceCreation => "the device could not create a resource",
            GpuError::DescriptorPoolExhausted => "the descriptor pool has no set left",
            GpuError::ShaderCompilation => "a shader did not compile",
            GpuError::Configuration => "a request does not fit the objects it is aimed at",
            GpuError::Asset => "the pixels of an image do not fill it",
            GpuError::SizeOverflow => "a size is beyond what the device can take",
        }
    }
}

} // verus!
