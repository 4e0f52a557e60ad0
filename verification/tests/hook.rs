use practice_tool::hook::{
    Hook, HookError, HookState, Patch, PresentStep, Presenter, ResizeStep, Target,
};

#[test]
fn install_then_uninstall_restores_the_table() {
    let original = vec![0xA0u64, 0xA1, 0xA2, 0xA3, 0xA4];
    let mut table = original.clone();
    let mut hook = Hook::new();
    assert_eq!(hook.begin_install(), Ok(()));
    let targets = vec![Target { slot: 1, trampoline: 0xF1 }, Target { slot: 3, trampoline: 0xF3 }];
    assert_eq!(hook.install(&mut table, &targets), Ok(()));
    assert_eq!(table, vec![0xA0, 0xF1, 0xA2, 0xF3, 0xA4]);
    assert_eq!(hook.state, HookState::Installed);
    assert_eq!(
        hook.patches,
        vec![Patch { slot: 1, original: 0xA1 }, Patch { slot: 3, original: 0xA3 }]
    );
    assert_eq!(hook.uninstall(&mut table), Ok(()));
    assert_eq!(table, original);
    assert!(table.iter().all(|slot| *slot != 0xF1 && *slot != 0xF3));
    assert_eq!(hook.state, HookState::Uninstalling);
    assert!(hook.try_finish());
    assert_eq!(hook.state, HookState::Uninstalled);
    assert!(hook.may_unload());
}

#[test]
fn a_slot_named_twice_gets_its_first_value_back() {
    let mut table = vec![1u64, 2, 3];
    let mut hook = Hook::new();
    assert_eq!(hook.begin_install(), Ok(()));
    let targets = vec![
        Target { slot: 2, trampoline: 10 },
        Target { slot: 2, trampoline: 11 },
        Target { slot: 0, trampoline: 12 },
    ];
    assert_eq!(hook.install(&mut table, &targets), Ok(()));
    assert_eq!(table, vec![12, 2, 11]);
    assert_eq!(hook.uninstall(&mut table), Ok(()));
    assert_eq!(table, vec![1, 2, 3]);
}

#[test]
fn a_bad_target_leaves_everything_as_it_was() {
    let mut table = vec![1u64, 2, 3];
    let mut hook = Hook::new();
    assert_eq!(hook.begin_install(), Ok(()));
    let targets = vec![Target { slot: 0, trampoline: 10 }, Target { slot: 3, trampoline: 11 }];
    assert_eq!(hook.install(&mut table, &targets), Err(HookError::NoSuchSlot));
    assert_eq!(table, vec![1, 2, 3]);
    assert_eq!(hook.state, HookState::Uninstalled);
    assert!(hook.patches.is_empty());
}

#[test]
fn operations_out_of_state_are_refused() {
    let mut table = vec![1u64, 2, 3];
    let mut hook = Hook::new();
    assert_eq!(hook.install(&mut table, &vec![]), Err(HookError::WrongState));
    assert_eq!(hook.uninstall(&mut table), Err(HookError::WrongState));
    assert!(!hook.try_finish());
    assert_eq!(hook.begin_install(), Ok(()));
    assert_eq!(hook.state, HookState::Installing);
    assert_eq!(hook.begin_install(), Err(HookError::WrongState));
    hook.abort_install();
    assert_eq!(hook.state, HookState::Uninstalled);
    assert_eq!(hook.begin_install(), Ok(()));
    assert_eq!(hook.uninstall(&mut table), Err(HookError::WrongState));
    assert_eq!(hook.install(&mut table, &vec![Target { slot: 0, trampoline: 9 }]), Ok(()));
    assert_eq!(hook.install(&mut table, &vec![]), Err(HookError::WrongState));
    assert_eq!(hook.begin_install(), Err(HookError::WrongState));
    hook.abort_install();
    assert_eq!(hook.state, HookState::Installed);
    assert!(!hook.may_unload());
    assert_eq!(table, vec![9, 2, 3]);
}

#[test]
fn unload_waits_for_calls_in_flight() {
    let mut table = vec![1u64];
    let mut hook = Hook::new();
    assert_eq!(hook.begin_install(), Ok(()));
    hook.install(&mut table, &vec![Target { slot: 0, trampoline: 9 }]).unwrap();
    hook.enter();
    hook.enter();
    assert_eq!(hook.in_flight, 2);
    hook.uninstall(&mut table).unwrap();
    assert_eq!(table, vec![1]);
    assert!(!hook.try_finish());
    assert!(!hook.may_unload());
    hook.leave();
    assert!(!hook.try_finish());
    assert_eq!(hook.state, HookState::Uninstalling);
    hook.leave();
    assert!(hook.try_finish());
    assert!(hook.may_unload());
}

#[test]
fn the_frame_loop_runs_once_per_presentation() {
    let mut presenter = Presenter::new();
    assert_eq!(
        presenter.on_present(),
        vec![
            PresentStep::CreateResources,
            PresentStep::CreateTarget,
            PresentStep::RunFrameLoop,
            PresentStep::ReleaseTransient,
            PresentStep::CallOriginal,
        ]
    );
    let steady = vec![PresentStep::RunFrameLoop, PresentStep::ReleaseTransient, PresentStep::CallOriginal];
    assert_eq!(presenter.on_present(), steady);
    assert_eq!(presenter.on_resize(), vec![ResizeStep::DropTarget, ResizeStep::CallOriginal]);
    assert_eq!(presenter.on_resize(), vec![ResizeStep::CallOriginal]);
    assert_eq!(
        presenter.on_present(),
        vec![
            PresentStep::CreateTarget,
            PresentStep::RunFrameLoop,
            PresentStep::ReleaseTransient,
            PresentStep::CallOriginal,
        ]
    );
    assert_eq!(presenter.on_present(), steady);
    let mut fresh = Presenter::new();
    assert_eq!(fresh.on_resize(), vec![ResizeStep::CallOriginal]);
}
