//! The computational half of the interrupt handlers.
//!
//! A handler runs in three steps: the trap trampoline (assembly,
//! outside this crate) saves the scratch registers and computes where
//! the hardware-pushed stack frame sits; the decisions — what the
//! keyboard byte decodes to, which controllers must be acknowledged —
//! are made here; and the caller performs the resulting port writes
//! and logging. The scancode decoding itself is done by the
//! `pc_keyboard` crate through the trusted wrappers below.

use vstd::prelude::*;

use crate::idt::IdtIndex;
use crate::pic::{Pics, PortWrite};

verus! {

/// How many scratch registers the trap trampoline pushes before it
/// may call anything.
pub const SAVED_SCRATCH_REGISTER_COUNT: u64 = 9;

/// Where the hardware-pushed frame sits once the trampoline has saved
/// the scratch registers: the nine saved words lie below it, plus one
/// more word when the vector pushes an error code.
pub fn trap_frame_address(stack_pointer: u64, has_error_code: bool) -> (r: u64)
    requires
        stack_pointer + 80 <= u64::MAX,
    ensures
        !has_error_code ==> r == stack_pointer + SAVED_SCRATCH_REGISTER_COUNT * 8,
        has_error_code ==> r == stack_pointer + SAVED_SCRATCH_REGISTER_COUNT * 8 + 8,
{
    if has_error_code {
        stack_pointer + SAVED_SCRATCH_REGISTER_COUNT * 8 + 8
    } else {
        stack_pointer + SAVED_SCRATCH_REGISTER_COUNT * 8
    }
}

/// Where a hardware-pushed error code sits once the trampoline has
/// saved the scratch registers: directly above the nine saved words.
pub fn trap_error_code_address(stack_pointer: u64) -> (r: u64)
    requires
        stack_pointer + 72 <= u64::MAX,
    ensures
        r == stack_pointer + SAVED_SCRATCH_REGISTER_COUNT * 8,
{
    stack_pointer + SAVED_SCRATCH_REGISTER_COUNT * 8
}

/// Holds pc_keyboard's stateful PS/2 scancode decoder (set 1, US
/// 104-key layout). The decoder's own generic type cannot be named
/// here — its bounds are traits of the outside crate — so the value
/// lives opaquely behind this struct and is touched only by the
/// trusted wrappers below.
#[verifier::external_body]
pub struct KeyboardDecoder {
    inner: pc_keyboard::Keyboard<pc_keyboard::layouts::Us104Key, pc_keyboard::ScancodeSet1>,
}

/// Relies on pc_keyboard::KeyEvent: a decoded key-number/state pair.
#[verifier::external_type_specification]
#[verifier::external_body]
pub struct ExKeyEvent(pc_keyboard::KeyEvent);

/// Relies on pc_keyboard::DecodedKey: a Unicode character or a raw
/// key code.
#[verifier::external_type_specification]
#[verifier::external_body]
pub struct ExDecodedKey(pc_keyboard::DecodedKey);

impl KeyboardDecoder {
    /// Relies on pc_keyboard::Keyboard::new: a fresh decoder for
    /// scancode set 1 under the US 104-key layout that maps control
    /// characters to their plain keys.
    #[verifier::external_body]
    pub fn new() -> KeyboardDecoder {
        KeyboardDecoder {
            inner: pc_keyboard::Keyboard::new(
                pc_keyboard::ScancodeSet1::new(),
                pc_keyboard::layouts::Us104Key,
                pc_keyboard::HandleControl::Ignore,
            ),
        }
    }
}

/// Relies on pc_keyboard::Keyboard::add_byte: feeds one scancode byte
/// to the decoder, which yields a key event once a full sequence has
/// arrived. A malformed sequence is no error at this layer, merely
/// "no event yet".
#[verifier::external_body]
fn keyboard_add_byte(keyboard: &mut KeyboardDecoder, scancode: u8) -> Option<
    pc_keyboard::KeyEvent,
> {
    match keyboard.inner.add_byte(scancode) {
        Ok(Some(event)) => Some(event),
        Ok(None) => None,
        Err(_) => None,
    }
}

/// Relies on pc_keyboard::Keyboard::process_keyevent: applies the
/// layout and modifier state to a key event, yielding a decoded key
/// for presses (and for releases it tracks state and yields nothing).
#[verifier::external_body]
fn keyboard_process_keyevent(keyboard: &mut KeyboardDecoder, event: pc_keyboard::KeyEvent) -> Option<
    pc_keyboard::DecodedKey,
> {
    keyboard.inner.process_keyevent(event)
}

/// Relies on pc_keyboard::DecodedKey's two variants: a Unicode key
/// becomes its character, a raw key its key-code name.
#[verifier::external_body]
fn decoded_key_text(key: pc_keyboard::DecodedKey) -> String {
    match key {
        pc_keyboard::DecodedKey::Unicode(character) => format!("{}", character),
        pc_keyboard::DecodedKey::RawKey(code) => format!("{:?}", code),
    }
}

/// The timer tick: the handler logs its mark (the caller's job) and
/// owes the controllers exactly the acknowledgement writes for the
/// timer vector — which the primary controller owns, so its single
/// end-of-interrupt.
pub fn timer_interrupt_handler(pics: &Pics) -> (r: Vec<PortWrite>)
    requires
        pics.wf(),
    ensures
        r@ == pics.spec_eoi_sequence(IdtIndex::TimerInterruptIndex.spec_vector()),
{
    pics.notify_end_of_interrupt(IdtIndex::TimerInterruptIndex.vector())
}

/// One keyboard interrupt: feed the scancode byte that was read from
/// the keyboard data port to the decoder; if a complete key event
/// decodes to a key, hand back its text for logging. Either way the
/// controllers are owed exactly the acknowledgement writes for the
/// keyboard vector.
pub fn keyboard_interrupt_handler(
    keyboard: &mut KeyboardDecoder,
    scancode: u8,
    pics: &Pics,
) -> (r: (Option<String>, Vec<PortWrite>))
    requires
        pics.wf(),
    ensures
        r.1@ == pics.spec_eoi_sequence(IdtIndex::KeyboardInterruptIndex.spec_vector()),
{
    let text = match keyboard_add_byte(keyboard, scancode) {
        Some(event) => match keyboard_process_keyevent(keyboard, event) {
            Some(key) => Some(decoded_key_text(key)),
            None => None,
        },
        None => None,
    };

    let acknowledgements = pics.notify_end_of_interrupt(IdtIndex::KeyboardInterruptIndex.vector());
    (text, acknowledgements)
}

} // verus!
