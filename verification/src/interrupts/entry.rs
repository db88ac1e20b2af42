//! Interrupt entries, in the 16-byte layout that the processor reads.
use crate::interrupts::entry_options::IDTEntryOptions;
use crate::privilege_level::PrivilegeLevel;
use crate::segment_selector::SegmentSelector;
use vstd::prelude::*;

verus! {

/// The calling conventions that the processor uses for a handler.
#[derive(Clone, Copy, Debug, PartialEq, Eq, Structural)]
pub enum HandlerKind {
    /// Takes the stack frame and returns.
    HandlerFunc,
    /// Takes the stack frame and an error code, and returns.
    HandlerFuncWithErrorCode,
    /// Takes the stack frame and never returns.
    NonReturnHandlerFunc,
    /// Takes the stack frame and an error code, and never returns.
    NonReturnHandlerFuncWithErrorCode,
    /// Takes the stack frame and the page-fault error code.
    PageFaultHandlerFunc,
}

/// One entry of the interrupt table. The address of the handler is split over
/// three fields.
#[derive(Clone, Copy, Debug)]
pub struct IDTEntry {
    pointer_low: u16,
    gdt_selector: SegmentSelector,
    options: IDTEntryOptions,
    pointer_middle: u16,
    pointer_high: u32,
    reserved: u32,
    handler_kind: HandlerKind,
}

/// The address that the three pointer fields of a entry stand for.
pub open spec fn spec_assemble(low: u16, middle: u16, high: u32) -> u64 {
    (low as u64) | ((middle as u64) << 16) | ((high as u64) << 32)
}

pub proof fn lemma_split_assemble(handler: u64)
    ensures
        spec_assemble(handler as u16, (handler >> 16) as u16, (handler >> 32) as u32) == handler,
{
    assert(((handler as u16) as u64) | ((((handler >> 16) as u16) as u64) << 16) | ((((handler
        >> 32) as u32) as u64) << 32) == handler) by (bit_vector);
}

/// The first 8 bytes of an entry as the processor reads it, as one number:
/// bits 0 to 15 of the handler, the selector in bits 16 to 31, the options in
/// bits 32 to 47, and bits 16 to 31 of the handler in bits 48 to 63.
pub open spec fn spec_encode_low(handler: u64, selector: u16, options: u16) -> u64 {
    (handler & 0xffff) | ((selector as u64) << 16) | ((options as u64) << 32) | (((handler >> 16)
        & 0xffff) << 48)
}

/// The last 8 bytes of an entry as the processor reads it, as one number:
/// bits 32 to 63 of the handler, and zero above them.
pub open spec fn spec_encode_high(handler: u64) -> u64 {
    handler >> 32
}

/// The two halves of an entry give back what was put into them.
pub proof fn lemma_encode_decode(handler: u64, selector: u16, options: u16)
    ensures
        ({
            let low = spec_encode_low(handler, selector, options);
            let high = spec_encode_high(handler);
            &&& (low & 0xffff) | (((low >> 48) & 0xffff) << 16) | (high << 32) == handler
            &&& (low >> 16) & 0xffff == selector
            &&& (low >> 32) & 0xffff == options
            &&& high >> 32 == 0
            &&& (low >> 47) & 1 == (options as u64 >> 15) & 1
        }),
{
    let s = selector as u64;
    let o = options as u64;
    assert(s <= 0xffff && o <= 0xffff ==> ({
        let low = (handler & 0xffff) | (s << 16) | (o << 32) | (((handler >> 16) & 0xffff) << 48);
        let high = handler >> 32;
        &&& (low & 0xffff) | (((low >> 48) & 0xffff) << 16) | (high << 32) == handler
        &&& (low >> 16) & 0xffff == s
        &&& (low >> 32) & 0xffff == o
        &&& high >> 32 == 0
        &&& (low >> 47) & 1 == (o >> 15) & 1
    })) by (bit_vector);
}

impl IDTEntry {
    /// The handler address that the entry holds.
    pub closed spec fn spec_handler(&self) -> u64 {
        spec_assemble(self.pointer_low, self.pointer_middle, self.pointer_high)
    }

    /// The code segment in which the handler runs.
    pub closed spec fn spec_selector(&self) -> SegmentSelector {
        self.gdt_selector
    }

    /// The options word of the entry.
    pub closed spec fn spec_options(&self) -> IDTEntryOptions {
        self.options
    }

    /// The calling convention that the entry was made for.
    pub closed spec fn spec_kind(&self) -> HandlerKind {
        self.handler_kind
    }

    /// Whether the entry is the one that `missing` gives for `kind`.
    pub open spec fn is_missing(&self, kind: HandlerKind) -> bool {
        &&& self.spec_handler() == 0
        &&& self.spec_selector()@ == 0
        &&& self.spec_options()@ == 0x0e00
        &&& !self.spec_options().spec_is_present()
        &&& self.spec_kind() == kind
    }

    /// Whether the entry is the one that `set_handler` leaves, but for changes
    /// to its options.
    pub open spec fn is_configured(&self, code_segment: SegmentSelector, handler: u64) -> bool {
        &&& self.spec_handler() == handler
        &&& self.spec_selector() == code_segment
    }

    /// A present entry to `handler` in the code segment `gdt_selector`.
    pub fn new(gdt_selector: SegmentSelector, handler: u64) -> (result: IDTEntry)
        ensures
            result.is_configured(gdt_selector, handler),
            result.spec_options()@ == 0x8e00,
            result.spec_options().spec_is_present(),
            result.spec_kind() == HandlerKind::HandlerFunc,
    {
        Self::with_handler(gdt_selector, handler, HandlerKind::HandlerFunc)
    }

    fn with_handler(gdt_selector: SegmentSelector, handler: u64, kind: HandlerKind) -> (result:
        IDTEntry)
        ensures
            result.is_configured(gdt_selector, handler),
            result.spec_options()@ == 0x8e00,
            result.spec_options().spec_is_present(),
            result.spec_kind() == kind,
    {
        proof {
            lemma_split_assemble(handler);
        }
        IDTEntry {
            gdt_selector,
            pointer_low: handler as u16,
            pointer_middle: (handler >> 16) as u16,
            pointer_high: (handler >> 32) as u32,
            options: IDTEntryOptions::present(),
            reserved: 0,
            handler_kind: kind,
        }
    }

    /// A entry for a vector that has no handler: not present, so that the
    /// processor faults on it instead of jumping anywhere.
    pub fn missing(kind: HandlerKind) -> (result: IDTEntry)
        ensures
            result.is_missing(kind),
    {
        assert(spec_assemble(0, 0, 0) == 0) by {
            assert((0u16 as u64) | ((0u16 as u64) << 16) | ((0u32 as u64) << 32) == 0)
                by (bit_vector);
        }
        let selector = SegmentSelector::new(0, PrivilegeLevel::Ring0);
        assert(selector@ == 0) by {
            assert((0u16 << 3) | 0 == 0) by (bit_vector);
        }
        IDTEntry {
            gdt_selector: selector,
            pointer_low: 0,
            pointer_middle: 0,
            pointer_high: 0,
            options: IDTEntryOptions::minimal(),
            reserved: 0,
            handler_kind: kind,
        }
    }

    /// Makes the entry a present one to `handler`, to run in `code_segment` (the
    /// code segment in use), and hands out its options for further changes.
    pub fn set_handler(&mut self, code_segment: SegmentSelector, handler: u64) -> (result:
        &mut IDTEntryOptions)
        ensures
            result@ == 0x8e00,
            result.spec_is_present(),
            final(self).is_configured(code_segment, handler),
            final(self).spec_kind() == old(self).spec_kind(),
            final(self).spec_options() == *final(result),
    {
        *self = IDTEntry::with_handler(code_segment, handler, self.handler_kind);
        &mut self.options
    }

    /// The handler address, put together from its three fields.
    pub fn handler_address(&self) -> (result: u64)
        ensures
            result == self.spec_handler(),
    {
        let low: u64 = self.pointer_low as u64;
        let middle: u64 = self.pointer_middle as u64;
        let high: u64 = self.pointer_high as u64;
        low | (middle << 16) | (high << 32)
    }

    /// The 16 bytes of the entry as the processor reads them, as two numbers
    /// of 8 bytes, the first to lie at the lower address.
    pub fn encode(&self) -> (result: [u64; 2])
        ensures
            result[0] == spec_encode_low(
                self.spec_handler(),
                self.spec_selector()@,
                self.spec_options()@,
            ),
            result[1] == spec_encode_high(self.spec_handler()),
    {
        let low: u64 = self.pointer_low as u64;
        let middle: u64 = self.pointer_middle as u64;
        let high: u64 = self.pointer_high as u64;
        let selector: u64 = self.gdt_selector.value() as u64;
        let options: u64 = self.options.value() as u64;
        assert(low <= 0xffff && middle <= 0xffff && high <= 0xffff_ffff ==> ({
            let handler = low | (middle << 16) | (high << 32);
            &&& handler & 0xffff == low
            &&& (handler >> 16) & 0xffff == middle
            &&& handler >> 32 == high
        })) by (bit_vector);
        [low | (selector << 16) | (options << 32) | (middle << 48), high]
    }

    pub fn options(&self) -> (result: IDTEntryOptions)
        ensures
            result == self.spec_options(),
    {
        self.options
    }

    /// The options of the entry, to change them in place. Nothing else of the
    /// entry changes.
    pub fn options_mut(&mut self) -> (result: &mut IDTEntryOptions)
        ensures
            *result == old(self).spec_options(),
            final(self).spec_options() == *final(result),
            final(self).spec_handler() == old(self).spec_handler(),
            final(self).spec_selector() == old(self).spec_selector(),
            final(self).spec_kind() == old(self).spec_kind(),
    {
        &mut self.options
    }

    pub fn selector(&self) -> (result: SegmentSelector)
        ensures
            result == self.spec_selector(),
    {
        self.gdt_selector
    }

    pub fn kind(&self) -> (result: HandlerKind)
        ensures
            result == self.spec_kind(),
    {
        self.handler_kind
    }
}

} // verus!
