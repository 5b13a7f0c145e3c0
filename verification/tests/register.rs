use nospacekey_tip::register::{
    decode_restore_command, guid_braced, inproc_server_key, owned_trees, register,
    register_for_target, registration_transaction_with, registry_not_found, registry_tree_absent,
    restore_target_for_root_with, unregister, valid_install_root, validated_restore_target, Guid,
    Hive, RegistrationStep, E_FAIL, E_INVALIDARG,
};
use std::cell::{Cell, RefCell};

#[test]
fn active_com_target_is_committed_after_profile_and_all_categories() {
    let events = RefCell::new(Vec::new());
    registration_transaction_with::<()>(
        "trusted-target",
        |target| {
            assert_eq!(target, "trusted-target");
            events.borrow_mut().push("profile");
            Ok(())
        },
        |_| {
            events.borrow_mut().push("category");
            Ok(())
        },
        |target| {
            assert_eq!(target, "trusted-target");
            events.borrow_mut().push("inproc");
            Ok(())
        },
    )
    .unwrap();

    assert_eq!(
        events.into_inner(),
        [
            "profile", "category", "category", "category", "category", "category", "category",
            "category", "inproc"
        ]
    );
}

#[test]
fn active_com_target_is_not_changed_when_any_precommit_step_fails() {
    for fail_at in 0..=7 {
        let step = Cell::new(0);
        let active_target = RefCell::new("old-target");
        let result = registration_transaction_with(
            "trusted-target",
            |_| {
                if fail_at == 0 {
                    Err("injected registration failure")
                } else {
                    step.set(1);
                    Ok(())
                }
            },
            |_| {
                let current = step.get();
                if current == fail_at {
                    Err("injected registration failure")
                } else {
                    step.set(current + 1);
                    Ok(())
                }
            },
            |_| {
                *active_target.borrow_mut() = "trusted-target";
                Ok(())
            },
        );

        assert!(result.is_err(), "step {fail_at} must fail");
        assert_eq!(*active_target.borrow(), "old-target");
    }
}

#[test]
fn commit_failure_is_returned_after_every_registration_step() {
    let steps = Cell::new(0);
    let active_target = RefCell::new("old-target");
    let result = registration_transaction_with(
        "trusted-target",
        |_| {
            steps.set(1);
            Ok(())
        },
        |_| {
            steps.set(steps.get() + 1);
            Ok(())
        },
        |_| Err("injected commit failure"),
    );

    assert_eq!(result, Err("injected commit failure"));
    assert_eq!(steps.get(), 8);
    assert_eq!(*active_target.borrow(), "old-target");
}

#[test]
fn restore_command_decodes_utf16_hex_without_command_line_metacharacters() {
    assert_eq!(
        decode_restore_command(
            "restore-utf16hex=0043003A005C006F006C0064005C006E006F00730070006100630065006B00650079005F007400690070002E0064006C006C"
        ),
        Some(r"C:\old\nospacekey_tip.dll".to_string())
    );
    for invalid in [
        "restore-utf16hex=",
        "restore-utf16hex=004",
        "restore-utf16hex=0022&calc",
        "other=0043",
        "restore-utf16hex=D800",
    ] {
        assert_eq!(decode_restore_command(invalid), None, "{invalid}");
    }
}

#[test]
fn restore_target_accepts_only_exact_legacy_or_versioned_product_dll() {
    let root = r"D:\custom nospacekey";
    for accepted in [
        r"D:\custom nospacekey\nospacekey_tip.dll",
        r"D:\custom nospacekey\versions\1.2.3\nospacekey_tip.dll",
        r"D:\custom nospacekey\versions\1.2.3-beta.4+sha.abc\nospacekey_tip.dll",
    ] {
        assert_eq!(
            restore_target_for_root_with(accepted, root, |_| true),
            Some(accepted.to_string()),
            "{accepted}"
        );
    }
    for rejected in [
        r"D:\custom nospacekey\other.dll",
        r"D:\custom nospacekey\backup\nospacekey_tip.dll",
        r"D:\custom nospacekey\versions\v1.2.3\nospacekey_tip.dll",
        r"D:\custom nospacekey\versions\1.2.3\sub\nospacekey_tip.dll",
        r"D:\custom nospacekey\versions\1.2.3\nospacekey_tip.dll:evil",
        r"D:\foreign\nospacekey_tip.dll",
        r"D:\custom nospacekey\nospacekey_tip.dll\child",
    ] {
        assert_eq!(
            restore_target_for_root_with(rejected, root, |_| true),
            None,
            "{rejected}"
        );
    }
    assert_eq!(
        restore_target_for_root_with(r"D:\custom nospacekey\nospacekey_tip.dll", root, |_| {
            false
        }),
        None
    );
    for unsafe_root in [
        r"relative\nospacekey",
        r"D:\custom nospacekey:stream",
        r"D:\custom nospacekey\..\other",
        r"D:\custom nospacekey. ",
    ] {
        assert_eq!(
            restore_target_for_root_with(
                r"D:\custom nospacekey\nospacekey_tip.dll",
                unsafe_root,
                |_| true,
            ),
            None,
            "{unsafe_root}"
        );
    }
}

#[test]
fn install_roots_are_plain_absolute_paths() {
    assert!(valid_install_root(r"C:\a"));
    assert!(valid_install_root(r"c:\日本語 フォルダ\b"));
    for bad in [r"C:\", r"C:\a\", r"C:\a\\b", r"C:\a.\b", r"C:\a \b", r"C:/a", r"1:\a", r"C:a\b", ""] {
        assert!(!valid_install_root(bad), "{bad}");
    }
    let long = format!(r"C:\{}", "a".repeat(1021));
    assert!(valid_install_root(&long));
    assert!(!valid_install_root(&format!("{long}a")));
}

#[test]
fn restore_commands_carry_surrogate_pairs() {
    assert_eq!(decode_restore_command("restore-utf16hex=d83dDE00"), Some("😀".to_string()));
    assert_eq!(decode_restore_command("restore-utf16hex=DE00D83D"), None);
    assert_eq!(decode_restore_command("restore-utf16hex=00410000"), None);
}

#[test]
fn guids_are_written_in_capital_groups() {
    let g = Guid {
        data1: 0x0123_abcd,
        data2: 0x45ef,
        data3: 0x0067,
        data4: [0x89, 0xab, 0xcd, 0xef, 0x01, 0x23, 0x45, 0x67],
    };
    assert_eq!(guid_braced(&g), "{0123ABCD-45EF-0067-89AB-CDEF01234567}");
}

#[test]
fn trees_are_absent_only_when_they_are_not_found() {
    assert!(registry_not_found(0x8007_0002) && registry_not_found(0x8007_0003));
    assert!(!registry_not_found(0x8007_0005));
    assert!(!registry_tree_absent(Ok(())));
    assert!(registry_tree_absent(Err(0x8007_0002)));
    let gone = Err(0x8007_0002);
    assert_eq!(unregister(gone, gone, Err(0x8007_0003), gone), Ok(()));
    assert_eq!(unregister(gone, Ok(()), gone, gone), Err(E_FAIL));
    assert_eq!(unregister(gone, gone, gone, Err(5)), Err(E_FAIL));
}

#[test]
fn the_owned_trees_and_keys_are_fixed() {
    let trees = owned_trees("{X}");
    assert_eq!(trees[0].path, r"SOFTWARE\Classes\CLSID\{X}");
    assert_eq!(trees[1].hive, Hive::CurrentUser);
    assert_eq!(trees[1].path, r"Software\Classes\CLSID\{X}");
    assert_eq!(trees[2].path, r"SOFTWARE\Microsoft\CTF\TIP\{X}");
    assert_eq!(trees[3].path, r"SOFTWARE\WOW6432Node\Microsoft\CTF\TIP\{X}");
    assert_eq!(inproc_server_key("{X}"), r"SOFTWARE\Classes\CLSID\{X}\InprocServer32");
}

#[test]
fn a_user_overlay_is_refused_before_anything_is_changed() {
    let calls = Cell::new(0);
    let count = || calls.set(calls.get() + 1);
    let r = register_for_target(
        "t",
        Ok(()),
        |_| {
            count();
            Ok(())
        },
        |_| {
            count();
            Ok(())
        },
        |_| {
            count();
            Ok(())
        },
    );
    assert_eq!(r, Err(E_FAIL));
    assert_eq!(calls.get(), 0);
    let r = register_for_target("t", Err(0x8007_0002), |_| Ok(()), |_| Ok(()), |_| Err(7));
    assert_eq!(r, Err(7));
    assert_eq!(register(None), Err(E_FAIL));
    assert_eq!(register(Some("d".to_string())), Ok("d".to_string()));
}

#[test]
fn a_restore_target_needs_command_marker_and_file() {
    let command = "restore-utf16hex=0043003A005C006F006C0064005C006E006F00730070006100630065006B00650079005F007400690070002E0064006C006C";
    let root = || Ok(r"C:\old".to_string());
    assert_eq!(
        validated_restore_target(command, root, |_| true),
        Ok(r"C:\old\nospacekey_tip.dll".to_string())
    );
    assert_eq!(validated_restore_target(command, root, |_| false), Err(E_INVALIDARG));
    assert_eq!(validated_restore_target(command, || Err(9), |_| true), Err(9));
    assert_eq!(validated_restore_target("other=0043", root, |_| true), Err(E_INVALIDARG));
}

#[test]
fn a_path_written_as_units_in_hexadecimal_is_read_back() {
    for path in [r"C:\old\nospacekey_tip.dll", "D:\\入力\\😀.dll", "a"] {
        let hex: String = path.encode_utf16().map(|unit| format!("{unit:04X}")).collect();
        let command = format!("restore-utf16hex={hex}");
        assert_eq!(decode_restore_command(&command), Some(path.to_string()));
    }
}

#[test]
fn the_commit_step_follows_the_last_category() {
    let mut step = RegistrationStep::Profile;
    let mut seen = vec![step];
    while step != RegistrationStep::Done {
        step = step.next(true);
        seen.push(step);
    }
    assert_eq!(seen.len(), 10);
    assert_eq!(seen[1], RegistrationStep::Category { index: 0 });
    assert_eq!(seen[7], RegistrationStep::Category { index: 6 });
    assert_eq!(seen[8], RegistrationStep::Commit);
    for step in &seen[..9] {
        assert_eq!(step.next(false), RegistrationStep::Failed);
    }
    assert_eq!(RegistrationStep::Failed.next(true), RegistrationStep::Failed);
    assert_eq!(RegistrationStep::Done.next(false), RegistrationStep::Done);
}
