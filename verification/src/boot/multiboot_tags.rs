//! The tags of which the boot information is made.
use vstd::prelude::*;

verus! {

/// The kinds of tag that a boot loader passes.
#[derive(Clone, Copy, Debug, PartialEq, Eq, Structural)]
pub enum TagTypes {
    EndTag,
    BootCommandLine,
    BootLoaderName,
    Modules,
    BasicMemoryInformation,
    BiosBootDevice,
    MemoryMap,
    VBEInfo,
    FramebufferInfo,
    ElfSymbols,
    APMTable,
}

impl TagTypes {
    /// The number by which the boot information names the kind.
    pub open spec fn spec_number(self) -> u32 {
        match self {
            TagTypes::EndTag => 0,
            TagTypes::BootCommandLine => 1,
            TagTypes::BootLoaderName => 2,
            TagTypes::Modules => 3,
            TagTypes::BasicMemoryInformation => 4,
            TagTypes::BiosBootDevice => 5,
            TagTypes::MemoryMap => 6,
            TagTypes::VBEInfo => 7,
            TagTypes::FramebufferInfo => 8,
            TagTypes::ElfSymbols => 9,
            TagTypes::APMTable => 10,
        }
    }

    pub fn number(self) -> (result: u32)
        ensures
            result == self.spec_number(),
    {
        match self {
            TagTypes::EndTag => 0,
            TagTypes::BootCommandLine => 1,
            TagTypes::BootLoaderName => 2,
            TagTypes::Modules => 3,
            TagTypes::BasicMemoryInformation => 4,
            TagTypes::BiosBootDevice => 5,
            TagTypes::MemoryMap => 6,
            TagTypes::VBEInfo => 7,
            TagTypes::FramebufferInfo => 8,
            TagTypes::ElfSymbols => 9,
            TagTypes::APMTable => 10,
        }
    }

    /// The kind that `number` names, if it names one.
    pub fn from_number(number: u32) -> (result: Option<TagTypes>)
        ensures
            match result {
                Some(kind) => kind.spec_number() == number,
                None => number > 10,
            },
    {
        match number {
            0 => Some(TagTypes::EndTag),
            1 => Some(TagTypes::BootCommandLine),
            2 => Some(TagTypes::BootLoaderName),
            3 => Some(TagTypes::Modules),
            4 => Some(TagTypes::BasicMemoryInformation),
            5 => Some(TagTypes::BiosBootDevice),
            6 => Some(TagTypes::MemoryMap),
            7 => Some(TagTypes::VBEInfo),
            8 => Some(TagTypes::FramebufferInfo),
            9 => Some(TagTypes::ElfSymbols),
            10 => Some(TagTypes::APMTable),
            _ => None,
        }
    }
}

/// The header that every tag begins with: its kind and its size in bytes, the
/// header included.
#[derive(Clone, Copy, Debug, PartialEq, Eq, Structural)]
pub struct Tag {
    pub typ: TagTypes,
    pub size: u32,
}

impl Tag {
    pub fn new(typ: TagTypes, size: u32) -> (result: Tag)
        ensures
            result == (Tag { typ, size }),
    {
        Tag { typ, size }
    }

    pub fn typ(&self) -> (result: TagTypes)
        ensures
            result == self.typ,
    {
        self.typ
    }

    pub fn size(&self) -> (result: u32)
        ensures
            result == self.size,
    {
        self.size
    }

    /// The distance in bytes from the start of a tag of `size` bytes to the
    /// start of the next one: tags begin at multiples of 8.
    pub open spec fn spec_stride(size: u32) -> int {
        if size % 8 == 0 {
            size as int
        } else {
            size - size % 8 + 8
        }
    }

    /// The distance in bytes from the start of this tag to the next.
    pub fn stride(&self) -> (result: u64)
        ensures
            result == Self::spec_stride(self.size),
            result % 8 == 0,
            self.size <= result < self.size + 8,
    {
        let size: u64 = self.size as u64;
        let rest: u64 = size % 8;
        if rest == 0 {
            size
        } else {
            size - rest + 8
        }
    }
}

/// Walks the tags of a boot information in their order and stops before the
/// end tag.
pub struct TagIterator<'a> {
    tags: &'a Vec<Tag>,
    position: usize,
}

impl<'a> TagIterator<'a> {
    /// The tags that come before the first end tag, from `position` on.
    pub open spec fn spec_rest(tags: Seq<Tag>, position: int) -> Seq<Tag>
        decreases tags.len() - position,
    {
        if position < 0 || position >= tags.len() || tags[position].typ == TagTypes::EndTag {
            Seq::empty()
        } else {
            seq![tags[position]] + Self::spec_rest(tags, position + 1)
        }
    }

    /// The tags still to come.
    pub closed spec fn view(&self) -> Seq<Tag> {
        Self::spec_rest(self.tags@, self.position as int)
    }

    pub fn new(tags: &'a Vec<Tag>) -> (result: TagIterator<'a>)
        ensures
            result@ == Self::spec_rest(tags@, 0),
    {
        TagIterator { tags, position: 0 }
    }

    /// The next tag, or `None` at the end tag or the end of the tags.
    pub fn next(&mut self) -> (result: Option<Tag>)
        ensures
            match result {
                Some(tag) => old(self)@.len() > 0 && tag == old(self)@[0] && final(self)@ == old(
                    self,
                )@.skip(1),
                None => old(self)@.len() == 0 && final(self)@ == old(self)@,
            },
    {
        if self.position >= self.tags.len() {
            return None;
        }
        let current = self.tags[self.position];
        match current.typ {
            TagTypes::EndTag => None,
            _ => {
                self.position = self.position + 1;
                assert(old(self)@.skip(1) =~= self@);
                Some(current)
            },
        }
    }
}

} // verus!
