//! Uniform data: what a shader is given to read, and the buffers that hold
//! it.
//!
//! A dynamic uniform buffer holds one value per draw. Each value starts at
//! a multiple of the stride, the size of the value rounded up to the
//! device's minimum offset alignment, so that a draw can select its value
//! with a byte offset at bind time.
use vstd::prelude::*;
use vstd::layout::size_of;
use vstd::arithmetic::div_mod::{lemma_fundamental_div_mod, lemma_mod_multiples_basic};
use vstd::arithmetic::mul::{lemma_mul_inequality, lemma_mul_is_commutative};
use crate::vk;
use crate::resource::Resource;

verus! {

/// What is written into a descriptor set for one binding.
#[derive(Clone, Copy, PartialEq, Eq, Structural, Debug)]
pub struct UniformInfo {
    pub descriptor_type: vk::DescriptorType,
    pub image_info: Option<vk::DescriptorImageInfo>,
    pub buffer_info: Option<vk::DescriptorBufferInfo>,
}

/// Something a shader can be given to read.
pub trait Uniform {
    /// The descriptor the value is bound through.
    spec fn uniform_info(&self) -> UniformInfo;

    fn get_descriptor_type(&self) -> (descriptor_type: vk::DescriptorType)
        ensures
            descriptor_type == self.uniform_info().descriptor_type,
    ;

    /// The image descriptor, for a sampled image.
    fn image_info(&self) -> (info: Option<vk::DescriptorImageInfo>)
        ensures
            info == self.uniform_info().image_info,
    ;

    /// The buffer descriptor, for a buffer.
    fn buffer_info(&self) -> (info: Option<vk::DescriptorBufferInfo>)
        ensures
            info == self.uniform_info().buffer_info,
    ;
}

/// One binding of a shader: what is bound, to which stages, and where.
#[derive(Clone, Copy, PartialEq, Eq, Structural, Debug)]
pub struct UniformDescriptor {
    pub data: UniformInfo,
    pub stage: u32,
    pub binding: u32,
    pub set: u32,
}

impl UniformDescriptor {
    /// Binds `data` to `binding` of descriptor set `set` for the stages in
    /// `stage`.
    pub fn new<U: Uniform>(data: &U, stage: u32, binding: u32, set: u32) -> (descriptor: Self)
        ensures
            descriptor == (UniformDescriptor { data: data.uniform_info(), stage, binding, set }),
    {
        UniformDescriptor {
            data: UniformInfo {
                descriptor_type: data.get_descriptor_type(),
                image_info: data.image_info(),
                buffer_info: data.buffer_info(),
            },
            stage,
            binding,
            set,
        }
    }
}

/// A buffer that holds one value.
#[derive(Clone, Copy, PartialEq, Eq, Structural, Debug)]
pub struct UniformBuffer {
    pub dynamic: Resource,
    pub alignment: u64,
}

impl UniformBuffer {
    /// Wraps the resource that was created for a value of type `T` and
    /// filled with it. Nothing is returned unless the resource is as large
    /// as the value.
    pub fn assemble_with_align<T>(dynamic: Resource, alignment: u64) -> (made: Option<UniformBuffer>)
        ensures
            made == if dynamic.size == size_of::<T>() {
                Some(UniformBuffer { dynamic, alignment })
            } else {
                None
            },
    {
        if dynamic.size == core::mem::size_of::<T>() as u64 {
            Some(UniformBuffer { dynamic, alignment })
        } else {
            None
        }
    }

    /// As `assemble_with_align`, with the size of the value as its alignment.
    pub fn assemble<T>(dynamic: Resource) -> (made: Option<UniformBuffer>)
        ensures
            made == if dynamic.size == size_of::<T>() {
                Some(UniformBuffer { dynamic, alignment: dynamic.size })
            } else {
                None
            },
    {
        UniformBuffer::assemble_with_align::<T>(dynamic, core::mem::size_of::<T>() as u64)
    }
}

impl Uniform for UniformBuffer {
    open spec fn uniform_info(&self) -> UniformInfo {
        UniformInfo {
            descriptor_type: vk::DescriptorType::UniformBuffer,
            image_info: None,
            buffer_info: Some(self.dynamic.descriptor),
        }
    }

    fn get_descriptor_type(&self) -> (descriptor_type: vk::DescriptorType) {
        vk::DescriptorType::UniformBuffer
    }

    fn image_info(&self) -> (info: Option<vk::DescriptorImageInfo>) {
        None
    }

    fn buffer_info(&self) -> (info: Option<vk::DescriptorBufferInfo>) {
        Some(self.dynamic.descriptor)
    }
}

/// A buffer that holds one value, kept as a bare buffer and memory block.
#[derive(Clone, Copy, PartialEq, Eq, Structural, Debug)]
pub struct NewUniformBuffer {
    pub buffer: vk::Buffer,
    pub descriptor: vk::DescriptorBufferInfo,
    pub memory: vk::DeviceMemory,
}

impl NewUniformBuffer {
    /// Wraps the buffer that was created for the value and the memory it
    /// is bound to; the descriptor covers the whole buffer.
    pub fn assemble(buffer: vk::Buffer, memory: vk::DeviceMemory) -> (made: NewUniformBuffer)
        ensures
            made == (NewUniformBuffer {
                buffer,
                descriptor: crate::resource::whole_buffer(buffer),
                memory,
            }),
    {
        NewUniformBuffer {
            buffer,
            descriptor: vk::DescriptorBufferInfo { buffer, offset: 0, range: vk::WHOLE_SIZE },
            memory,
        }
    }

    /// What has to be destroyed to release the buffer: the buffer, then the
    /// memory behind it.
    pub fn release(&self) -> (objects: Vec<vk::Object>)
        ensures
            objects@ == seq![vk::Object::Buffer(self.buffer), vk::Object::DeviceMemory(self.memory)],
    {
        let mut objects: Vec<vk::Object> = Vec::new();
        objects.push(vk::Object::Buffer(self.buffer));
        objects.push(vk::Object::DeviceMemory(self.memory));
        objects
    }
}

impl Uniform for NewUniformBuffer {
    open spec fn uniform_info(&self) -> UniformInfo {
        UniformInfo {
            descriptor_type: vk::DescriptorType::UniformBuffer,
            image_info: None,
            buffer_info: Some(self.descriptor),
        }
    }

    fn get_descriptor_type(&self) -> (descriptor_type: vk::DescriptorType) {
        vk::DescriptorType::UniformBuffer
    }

    fn image_info(&self) -> (info: Option<vk::DescriptorImageInfo>) {
        None
    }

    fn buffer_info(&self) -> (info: Option<vk::DescriptorBufferInfo>) {
        Some(self.descriptor)
    }
}

/// `size` rounded up to the next multiple of `alignment`.
pub open spec fn round_up(size: int, alignment: int) -> int
    recommends
        size >= 0,
        alignment > 0,
{
    if size % alignment == 0 {
        size
    } else {
        (size / alignment) * alignment + alignment
    }
}

/// Whether `m` is a multiple of `alignment`.
pub open spec fn is_multiple(m: int, alignment: int) -> bool {
    m % alignment == 0
}

/// Rounding up yields a multiple of the alignment that is at least the
/// size and less than one alignment above it. There is only one such
/// number, so this says all there is to say about the stride.
pub proof fn lemma_round_up_is_least_multiple(size: int, alignment: int)
    requires
        size >= 0,
        alignment > 0,
    ensures
        round_up(size, alignment) % alignment == 0,
        size <= round_up(size, alignment) < size + alignment,
        forall|m: int| #[trigger] is_multiple(m, alignment) && size <= m ==> round_up(size, alignment) <= m,
{
    let q = size / alignment;
    lemma_fundamental_div_mod(size, alignment);
    lemma_mul_is_commutative(alignment, q);
    lemma_mod_multiples_basic(q, alignment);
    lemma_mod_multiples_basic(q + 1, alignment);
    assert((q + 1) * alignment == q * alignment + alignment) by (nonlinear_arith);
    assert forall|m: int| #[trigger] is_multiple(m, alignment) && size <= m implies round_up(
        size,
        alignment,
    ) <= m by {
        let k = m / alignment;
        lemma_fundamental_div_mod(m, alignment);
        lemma_mul_is_commutative(alignment, k);
        if size % alignment != 0 {
            if k <= q {
                lemma_mul_inequality(k, q, alignment);
            }
            assert(k >= q + 1);
            lemma_mul_inequality(q + 1, k, alignment);
        }
    }
}

/// The distance between two values of `type_size` bytes in a dynamic
/// uniform buffer on a device whose minimum offset alignment is
/// `min_alignment`. Nothing when the alignment is zero or the stride does
/// not fit.
pub fn aligned_stride(type_size: u64, min_alignment: u64) -> (stride: Option<u64>)
    ensures
        stride is Some <==> min_alignment > 0 && round_up(type_size as int, min_alignment as int)
            <= u64::MAX,
        stride matches Some(s) ==> s == round_up(type_size as int, min_alignment as int),
{
    if min_alignment == 0 {
        return None;
    }
    let alignment: u64 = if (type_size % min_alignment) > 0 {
        min_alignment
    } else {
        0
    };
    proof {
        lemma_fundamental_div_mod(type_size as int, min_alignment as int);
        lemma_mul_is_commutative(min_alignment as int, (type_size / min_alignment) as int);
    }
    let base: u64 = (type_size / min_alignment) * min_alignment;
    base.checked_add(alignment)
}

/// Where `count` values of `type_size` bytes lie in a dynamic uniform
/// buffer.
#[derive(Clone, Copy, PartialEq, Eq, Structural, Debug)]
pub struct DynamicLayout {
    /// The distance in bytes from one value to the next.
    pub stride: usize,
    /// The size of the buffer in bytes.
    pub buffer_size: usize,
}

/// Whether `layout` places `count` values of `type_size` bytes on a device
/// with the given minimum offset alignment.
pub open spec fn is_dynamic_layout(
    layout: DynamicLayout,
    type_size: int,
    min_alignment: int,
    count: int,
) -> bool {
    &&& layout.stride == round_up(type_size, min_alignment)
    &&& layout.buffer_size == count * round_up(type_size, min_alignment)
}

/// Whether `count` values of `type_size` bytes can be laid out at all: the
/// alignment is not zero, and stride and buffer size are representable.
pub open spec fn dynamic_layout_fits(type_size: int, min_alignment: int, count: int) -> bool {
    &&& min_alignment > 0
    &&& round_up(type_size, min_alignment) <= usize::MAX
    &&& round_up(type_size, min_alignment) <= u64::MAX
    &&& count * round_up(type_size, min_alignment) <= usize::MAX
}

/// Lays out `count` values of `type_size` bytes for a device whose minimum
/// uniform-buffer offset alignment is `min_alignment`.
pub fn dynamic_layout(type_size: u64, min_alignment: u64, count: usize) -> (layout: Option<
    DynamicLayout,
>)
    ensures
        layout is Some <==> dynamic_layout_fits(type_size as int, min_alignment as int, count as int),
        layout matches Some(l) ==> is_dynamic_layout(
            l,
            type_size as int,
            min_alignment as int,
            count as int,
        ),
{
    let stride: u64 = match aligned_stride(type_size, min_alignment) {
        Some(s) => s,
        None => {
            return None;
        },
    };
    if stride > usize::MAX as u64 {
        return None;
    }
    let stride: usize = stride as usize;
    proof {
        lemma_mul_is_commutative(count as int, stride as int);
    }
    match count.checked_mul(stride) {
        Some(buffer_size) => Some(DynamicLayout { stride, buffer_size }),
        None => None,
    }
}

/// A buffer that holds `count` values, `align` bytes apart.
#[derive(Clone, Copy, PartialEq, Eq, Structural, Debug)]
pub struct DynamicUniformBuffer {
    pub dynamic: Resource,
    /// The size of the buffer in bytes.
    pub size: usize,
    /// The distance in bytes from one value to the next.
    pub align: usize,
    /// The number of values.
    pub count: usize,
}

impl DynamicUniformBuffer {
    /// The buffer holds `count` values `align` bytes apart and nothing
    /// else, and its resource was created for exactly that.
    pub open spec fn wf(&self) -> bool {
        &&& self.size == self.count * self.align
        &&& self.dynamic.size == self.size
        &&& self.dynamic.align == Some(self.align as u64)
    }

    /// Whether the buffer holds what it says it holds.
    pub fn is_well_formed(&self) -> (ok: bool)
        ensures
            ok == self.wf(),
    {
        match self.count.checked_mul(self.align) {
            Some(size) => {
                size == self.size && self.dynamic.size == self.size as u64 && match self.dynamic.align {
                    Some(a) => a == self.align as u64,
                    None => false,
                }
            },
            None => false,
        }
    }

    /// The layout of `count` values of type `T`.
    pub fn layout<T>(min_alignment: u64, count: usize) -> (layout: Option<DynamicLayout>)
        ensures
            layout is Some <==> dynamic_layout_fits(
                size_of::<T>() as int,
                min_alignment as int,
                count as int,
            ),
            layout matches Some(l) ==> is_dynamic_layout(
                l,
                size_of::<T>() as int,
                min_alignment as int,
                count as int,
            ),
    {
        dynamic_layout(core::mem::size_of::<T>() as u64, min_alignment, count)
    }

    /// Wraps the resource that was created for `count` values of type `T`
    /// and filled with them. Nothing is returned unless the values can be
    /// laid out and the resource was created with the size and the stride
    /// of that layout.
    pub fn assemble<T>(min_alignment: u64, count: usize, dynamic: Resource) -> (made: Option<
        DynamicUniformBuffer,
    >)
        ensures
            made is Some <==> {
                &&& dynamic_layout_fits(size_of::<T>() as int, min_alignment as int, count as int)
                &&& dynamic.size == count * round_up(size_of::<T>() as int, min_alignment as int)
                &&& dynamic.align == Some(
                    round_up(size_of::<T>() as int, min_alignment as int) as u64,
                )
            },
            made matches Some(buffer) ==> {
                &&& buffer.wf()
                &&& buffer.dynamic == dynamic
                &&& buffer.count == count
                &&& buffer.align == round_up(size_of::<T>() as int, min_alignment as int)
            },
    {
        let layout = match DynamicUniformBuffer::layout::<T>(min_alignment, count) {
            Some(l) => l,
            None => {
                return None;
            },
        };
        if dynamic.size != layout.buffer_size as u64 {
            return None;
        }
        match dynamic.align {
            Some(a) => {
                if a != layout.stride as u64 {
                    return None;
                }
            },
            None => {
                return None;
            },
        }
        Some(
            DynamicUniformBuffer {
                dynamic,
                size: layout.buffer_size,
                align: layout.stride,
                count,
            },
        )
    }

    /// The byte offset that selects value `index` when the buffer is bound.
    /// Nothing when there is no such value or the offset does not fit the
    /// 32 bits a dynamic offset has.
    pub fn dynamic_offset(&self, index: usize) -> (offset: Option<u32>)
        requires
            self.wf(),
        ensures
            offset is Some <==> index < self.count && index * self.align <= u32::MAX,
            offset matches Some(o) ==> o == index * self.align,
    {
        if index >= self.count {
            return None;
        }
        proof {
            if self.align > 0 {
                lemma_mul_inequality(index as int, self.count as int, self.align as int);
            } else {
                assert(index * self.align == 0) by (nonlinear_arith)
                    requires
                        self.align == 0,
                ;
            }
        }
        let offset: usize = index * self.align;
        if offset > u32::MAX as usize {
            None
        } else {
            Some(offset as u32)
        }
    }
}

impl Uniform for DynamicUniformBuffer {
    open spec fn uniform_info(&self) -> UniformInfo {
        UniformInfo {
            descriptor_type: vk::DescriptorType::UniformBufferDynamic,
            image_info: None,
            buffer_info: Some(self.dynamic.descriptor),
        }
    }

    fn get_descriptor_type(&self) -> (descriptor_type: vk::DescriptorType) {
        vk::DescriptorType::UniformBufferDynamic
    }

    fn image_info(&self) -> (info: Option<vk::DescriptorImageInfo>) {
        None
    }

    fn buffer_info(&self) -> (info: Option<vk::DescriptorBufferInfo>) {
        Some(self.dynamic.descriptor)
    }
}

} // verus!
