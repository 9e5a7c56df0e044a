use stackful::coroutine::platform::{i686, sysv64, win64, FINISHED, RESUMED, STACK_ALIGN, YIELDED};
use stackful::{
    resume_coroutine, return_from_coroutine, Control, Coroutine, Direction, StackSpace, Store,
    Switch,
};

const BASE: usize = 0x7000_0000;

fn space(size: usize) -> StackSpace {
    StackSpace::new(BASE, size).unwrap()
}

#[test]
fn stack_space_describes_a_good_block() {
    let space = StackSpace::new(BASE, 0x80_0000).unwrap();
    assert_eq!(space.address(), BASE);
    assert_eq!(space.size(), 0x80_0000);
    assert_eq!(space.top(), 0x7080_0000);
    let least = StackSpace::new(16, 16).unwrap();
    assert_eq!(least.address(), 16);
    assert_eq!(least.size(), 16);
    assert_eq!(least.top(), 32);
}

#[test]
fn stack_space_refuses_a_failed_allocation() {
    assert_eq!(StackSpace::new(0, 0x80_0000), None);
}

#[test]
fn stack_space_refuses_an_empty_block() {
    assert_eq!(StackSpace::new(BASE, 0), None);
}

#[test]
fn stack_space_refuses_an_address_off_the_alignment() {
    assert_eq!(STACK_ALIGN, 16);
    assert_eq!(StackSpace::new(BASE + 8, 0x80_0000), None);
    assert_eq!(StackSpace::new(BASE + 1, 0x80_0000), None);
    assert_eq!(StackSpace::new(BASE + 15, 100), None);
}

#[test]
fn stack_space_describes_a_block_of_any_size() {
    let space = StackSpace::new(BASE, 0x80_0008).unwrap();
    assert_eq!(space.address(), BASE);
    assert_eq!(space.size(), 0x80_0008);
    assert_eq!(space.top(), 0x7080_0000);
    let space = StackSpace::new(BASE, 100).unwrap();
    assert_eq!(space.size(), 100);
    assert_eq!(space.top(), BASE + 96);
    let space = StackSpace::new(BASE, 24).unwrap();
    assert_eq!(space.top(), BASE + 16);
    let space = StackSpace::new(BASE, 1).unwrap();
    assert_eq!(space.size(), 1);
    assert_eq!(space.top(), BASE);
    let space = StackSpace::new(BASE, 15).unwrap();
    assert_eq!(space.top(), BASE);
    let space = StackSpace::new(BASE, 31).unwrap();
    assert_eq!(space.top(), BASE + 16);
}

#[test]
fn stack_space_refuses_a_block_past_the_address_space() {
    let last = usize::MAX - 15;
    assert_eq!(StackSpace::new(last, 32), None);
    assert_eq!(StackSpace::new(last - 16, 32), None);
    assert_eq!(StackSpace::new(last, 16), None);
    assert!(StackSpace::new(last, 15).is_some());
    assert_eq!(StackSpace::new(last, 15).unwrap().top(), last);
    assert!(StackSpace::new(last - 32, 32).is_some());
    assert_eq!(StackSpace::new(last - 32, 32).unwrap().top(), last);
}

#[test]
fn stack_space_describes_the_largest_block_an_allocator_can_give() {
    let most = isize::MAX as usize - 15;
    assert_eq!(most % 16, 0);
    let space = StackSpace::new(16, most).unwrap();
    assert_eq!(space.size(), most);
    assert_eq!(space.top(), most + 16);
}

#[test]
fn words_that_travel() {
    assert_eq!(RESUMED, 0);
    assert_eq!(YIELDED, 0);
    assert_eq!(FINISHED, 1);
}

#[test]
fn default_stack_is_eight_mebibytes() {
    assert_eq!(sysv64::DEFAULT_STACK_SIZE, 8_388_608);
    assert_eq!(win64::DEFAULT_STACK_SIZE, 8_388_608);
    assert_eq!(i686::DEFAULT_STACK_SIZE, 8_388_608);
}

#[test]
fn preserved_registers_by_convention() {
    assert_eq!((i686::WORD, i686::SAVED_REGISTERS), (4, 4));
    assert_eq!((sysv64::WORD, sysv64::SAVED_REGISTERS), (8, 6));
    assert_eq!((win64::WORD, win64::SAVED_REGISTERS), (8, 8));
    assert_eq!(win64::HOME_AREA, 32);
    assert_eq!((i686::RESERVED, i686::MIN_STACK_SIZE), (16, 20));
    assert_eq!((sysv64::RESERVED, sysv64::MIN_STACK_SIZE), (48, 56));
    assert_eq!((win64::RESERVED, win64::MIN_STACK_SIZE), (64, 72));
}

#[test]
fn sysv64_context_points_at_the_payload_word() {
    let (context, store) =
        sysv64::Context::new(space(sysv64::DEFAULT_STACK_SIZE), 0x40_1000, 0x5555_0010).unwrap();
    assert_eq!(context.resume_addr(), 0x40_1000);
    assert_eq!(context.resume_rsp(), 0x707f_fff8);
    assert_eq!(context.stack_space(), &space(sysv64::DEFAULT_STACK_SIZE));
    assert_eq!(store, Store { address: 0x707f_fff8, value: 0x5555_0010 });
    // The entry code takes the word off and calls on an aligned stack.
    assert_eq!((context.resume_rsp() + 8) % 16, 0);
}

#[test]
fn win64_context_points_at_the_payload_word() {
    let (context, store) =
        win64::Context::new(space(win64::DEFAULT_STACK_SIZE), 0x40_2000, 0x5555_0020).unwrap();
    assert_eq!(context.resume_addr(), 0x40_2000);
    assert_eq!(context.resume_rsp(), 0x707f_fff8);
    assert_eq!(context.stack_space(), &space(win64::DEFAULT_STACK_SIZE));
    assert_eq!(store, Store { address: 0x707f_fff8, value: 0x5555_0020 });
    // The entry code steps five words down and calls on an aligned stack,
    // with the home area of the called function inside the region.
    let call_sp = context.resume_rsp() - win64::WORD - win64::HOME_AREA;
    assert_eq!(call_sp, 0x707f_ffd0);
    assert_eq!(call_sp % 16, 0);
    assert_eq!(call_sp + win64::HOME_AREA, 0x707f_fff0);
    assert!(call_sp + win64::HOME_AREA <= context.stack_space().top());
    assert!(call_sp - win64::WORD >= context.stack_space().address());
}

#[test]
fn i686_context_points_at_the_payload_word() {
    let (context, store) =
        i686::Context::new(space(i686::DEFAULT_STACK_SIZE), 0x804_8000, 0x900_0040).unwrap();
    assert_eq!(context.resume_addr(), 0x804_8000);
    assert_eq!(context.resume_esp(), 0x707f_fffc);
    assert_eq!(context.stack_space(), &space(i686::DEFAULT_STACK_SIZE));
    assert_eq!(store, Store { address: 0x707f_fffc, value: 0x900_0040 });
    // The entry code takes the word off, opens sixteen bytes and calls on an
    // aligned stack.
    assert_eq!((context.resume_esp() + 4 - 16) % 16, 0);
}

#[test]
fn a_stack_too_small_for_the_kept_registers_comes_back() {
    assert_eq!(sysv64::Context::new(space(48), 1, 2), Err(space(48)));
    assert_eq!(sysv64::Context::new(space(16), 1, 2), Err(space(16)));
    assert_eq!(win64::Context::new(space(64), 1, 2), Err(space(64)));
    assert_eq!(i686::Context::new(space(16), 1, 2), Err(space(16)));
    // What counts is the room below the aligned top, not the size.
    assert_eq!(sysv64::Context::new(space(63), 1, 2), Err(space(63)));
    assert_eq!(sysv64::Context::new(space(56), 1, 2), Err(space(56)));
    assert_eq!(win64::Context::new(space(79), 1, 2), Err(space(79)));
    assert_eq!(i686::Context::new(space(31), 1, 2), Err(space(31)));
    assert_eq!(i686::Context::new(space(20), 1, 2), Err(space(20)));
    assert_eq!(sysv64::Context::new(space(1), 1, 2), Err(space(1)));
}

#[test]
fn a_stack_of_a_size_off_the_alignment_is_primed_below_its_aligned_top() {
    let (context, store) = sysv64::Context::new(space(0x80_0008), 0x40_1000, 5).unwrap();
    assert_eq!(context.resume_rsp(), 0x707f_fff8);
    assert_eq!((context.resume_rsp() + 8) % 16, 0);
    assert_eq!(store, Store { address: 0x707f_fff8, value: 5 });
    assert_eq!(context.stack_space().size(), 0x80_0008);

    let (context, store) = sysv64::Context::new(space(100), 0x40_1000, 5).unwrap();
    assert_eq!(context.resume_rsp(), BASE + 88);
    assert_eq!(store.address, BASE + 88);

    let (context, store) = win64::Context::new(space(100), 0x40_1000, 5).unwrap();
    assert_eq!(context.resume_rsp(), BASE + 88);
    assert_eq!((context.resume_rsp() - 40) % 16, 0);
    assert_eq!(store.address, BASE + 88);

    let (context, store) = i686::Context::new(space(100), 0x40_1000, 5).unwrap();
    assert_eq!(context.resume_esp(), BASE + 92);
    assert_eq!((context.resume_esp() + 4 - 16) % 16, 0);
    assert_eq!(store.address, BASE + 92);

    let (context, _) = sysv64::Context::new(space(79), 1, 2).unwrap();
    assert_eq!(context.resume_rsp(), BASE + 56);
    assert_eq!(context.release(), space(79));
}

#[test]
fn smallest_stacks_that_can_be_primed() {
    let (context, store) = sysv64::Context::new(space(64), 1, 2).unwrap();
    assert_eq!(context.resume_rsp(), BASE + 56);
    assert_eq!(store, Store { address: BASE + 56, value: 2 });
    assert!(context.resume_rsp() - sysv64::RESERVED >= BASE);

    let (context, store) = win64::Context::new(space(80), 1, 2).unwrap();
    assert_eq!(context.resume_rsp(), BASE + 72);
    assert_eq!(store, Store { address: BASE + 72, value: 2 });
    assert!(context.resume_rsp() - win64::RESERVED >= BASE);

    let (context, store) = i686::Context::new(space(32), 1, 2).unwrap();
    assert_eq!(context.resume_esp(), BASE + 28);
    assert_eq!(store, Store { address: BASE + 28, value: 2 });
    assert!(context.resume_esp() - i686::RESERVED >= BASE);
}

#[test]
fn a_released_state_hands_out_its_stack() {
    let (context, _) = sysv64::Context::new(space(4096), 0x40_1000, 0).unwrap();
    assert_eq!(context.release(), space(4096));
    let (context, _) = win64::Context::new(space(4096), 0x40_1000, 0).unwrap();
    assert_eq!(context.release(), space(4096));
    let (context, _) = i686::Context::new(space(4096), 0x40_1000, 0).unwrap();
    assert_eq!(context.release(), space(4096));
}

#[test]
fn a_retired_handle_gives_its_stack_back() {
    let (context, _) = sysv64::Context::new(space(4096), 0x40_1000, 0).unwrap();
    let mut control = Control::new();
    let mut co = Coroutine::new(context, BASE);
    co.resume(&mut control);
    co.settle(&mut control, 1);
    assert!(co.is_finished());
    assert_eq!(co.resume(&mut control), None);
    assert_eq!(co.context().resume_rsp(), BASE + 4096 - 8);
    assert_eq!(co.retire().release(), space(4096));
}

#[test]
fn a_handle_can_be_retired_before_it_ran() {
    let (context, _) = win64::Context::new(space(4096), 0x40_1000, 0).unwrap();
    let co = Coroutine::new(context, BASE);
    assert!(!co.is_finished());
    assert_eq!(co.retire().release(), space(4096));
}

#[test]
fn transfers_carry_their_word() {
    let mut control = Control::new();
    assert!(!control.is_in_flight());
    let enter = resume_coroutine(&mut control, 5, 42);
    assert_eq!(enter, Switch { direction: Direction::Enter, value: 42 });
    assert!(control.is_in_flight());
    assert_eq!(control.running(), Some(5));
    let leave = return_from_coroutine(&control, 9);
    assert_eq!(leave, Switch { direction: Direction::Leave, value: 9 });
    assert!(control.is_in_flight());
}
