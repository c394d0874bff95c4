use std::time::Duration;

use netprintswitch::associations::{prepare_association, prepare_selected_association, AssociationInputError};
use netprintswitch::command_wait::{next_wait_step, ProcessPoll, WaitStep};
use netprintswitch::cache::{invalidate_printer_cache, PrinterCache};
use netprintswitch::config_file::{load_config_result, ConfigFile};
use netprintswitch::display::{
    association_detail, association_line, network_label, network_summary, printer_choice, printer_entry,
};
use netprintswitch::management::{
    association_row_keys, default_printer_index, status_is_error, ConfigEdit, ManagementState,
};
use netprintswitch::model::{Association, CloseBehavior, Config, Network, Printer, PromptMode};
use netprintswitch::monitor::{CheckPrompt, MonitorState};
use netprintswitch::scheduler::{CheckScheduler, CheckStep};
use netprintswitch::settings::{
    close_behavior_from_index, close_behavior_index, close_choice, close_decision, prompt_mode_from_index,
    prompt_mode_index, CloseAction, CloseDecision,
};

fn network(name: &str, kind: &str) -> Network {
    Network { name: name.to_string(), network_type: kind.to_string() }
}

fn association(network: &str, kind: &str, printer: &str) -> Association {
    Association { network: network.to_string(), network_type: kind.to_string(), printer: printer.to_string() }
}

fn printer(name: &str, is_default: bool) -> Printer {
    Printer { name: name.to_string(), is_default }
}

fn config(associations: Vec<Association>, prompt_mode: PromptMode) -> Config {
    Config { associations, prompt_mode, close_behavior: CloseBehavior::AskOncePerStartup }
}

fn loaded_monitor(printers: Vec<Printer>) -> MonitorState {
    let mut m = MonitorState::new(Config::default());
    m.printers_refreshed(printers);
    m
}

fn switch_printer(prompt: &Option<CheckPrompt>) -> Option<String> {
    match prompt {
        Some(CheckPrompt::Switch { printer, .. }) => Some(printer.clone()),
        _ => None,
    }
}

#[test]
fn nothing_is_evaluated_before_printers_are_read() {
    let mut m = MonitorState::new(Config::default());
    let c = config(vec![association("Office", "Wi-Fi", "Laser")], PromptMode::OncePerConnection);
    assert!(m.evaluate_network(c, true, network("Office", "Wi-Fi"), 0).is_none());
    assert!(m.last_network_key.is_none());
}

#[test]
fn known_network_offers_its_installed_printer() {
    let mut m = loaded_monitor(vec![printer("Home Inkjet", true), printer(" LASER ", false)]);
    let c = config(vec![association("office", "Wi-Fi", "laser")], PromptMode::OncePerConnection);
    let e = m.evaluate_network(c, true, network("Office", "Wi-Fi"), 1000).unwrap();
    assert!(e.show_network);
    assert_eq!(switch_printer(&e.prompt), Some("laser".to_string()));
    assert_eq!(m.last_prompted_network_key.as_deref(), Some("Wi-Fi::office"));
    assert_eq!(m.last_prompted_association_count, Some(1));
}

#[test]
fn unknown_network_raises_no_prompt() {
    let mut m = loaded_monitor(vec![printer("Laser", false)]);
    let c = config(vec![association("Office", "Wi-Fi", "Laser")], PromptMode::EveryConnection);
    let e = m.evaluate_network(c, true, network("Cafe", "Wi-Fi"), 0).unwrap();
    assert!(e.prompt.is_none());
    assert_eq!(m.current_network.as_ref().map(|n| n.name.clone()), Some("Cafe".to_string()));
}

#[test]
fn default_or_missing_printer_raises_no_prompt() {
    let mut m = loaded_monitor(vec![printer("Laser", true)]);
    let c = config(vec![association("Office", "Network", "laser")], PromptMode::OncePerConnection);
    let e = m.evaluate_network(c, true, network("Office", "Ethernet"), 0).unwrap();
    assert!(e.prompt.is_none());
    assert_eq!(m.last_prompted_association_count, Some(1));

    let mut m = loaded_monitor(vec![printer("Inkjet", true)]);
    let c = config(vec![association("Office", "Network", "Laser")], PromptMode::OncePerConnection);
    let e = m.evaluate_network(c, true, network("Office", "Ethernet"), 0).unwrap();
    assert!(e.prompt.is_none());
    assert_eq!(m.last_prompted_network_key, None);
}

#[test]
fn duplicate_associations_warn_instead_of_switching() {
    let mut m = loaded_monitor(vec![printer("A", false), printer("B", false)]);
    let c = config(
        vec![association("Office", "Wi-Fi", "A"), association("Cafe", "Wi-Fi", "C"), association("OFFICE", "network", "B")],
        PromptMode::OncePerConnection,
    );
    let e = m.evaluate_network(c, false, network("Office", "Wi-Fi"), 0).unwrap();
    match e.prompt {
        Some(CheckPrompt::Duplicate { network, printers }) => {
            assert_eq!(network.name, "Office");
            assert_eq!(printers, vec!["A".to_string(), "B".to_string()]);
        },
        _ => panic!("expected a duplicate warning"),
    }
    assert_eq!(m.last_prompted_association_count, Some(2));
}

#[test]
fn once_per_connection_prompts_once() {
    let mut m = loaded_monitor(vec![printer("Laser", false)]);
    let c = config(vec![association("Office", "Wi-Fi", "Laser")], PromptMode::OncePerConnection);
    let first = m.evaluate_network(c.clone(), true, network("Office", "Wi-Fi"), 0).unwrap();
    assert!(first.prompt.is_some());
    let second = m.evaluate_network(c.clone(), true, network("Office", "Wi-Fi"), 60_000).unwrap();
    assert!(second.prompt.is_none());
    let other = m.evaluate_network(c.clone(), true, network("Home", "Wi-Fi"), 70_000).unwrap();
    assert!(other.prompt.is_none());
    let back = m.evaluate_network(c, true, network("Office", "Wi-Fi"), 80_000).unwrap();
    assert!(back.prompt.is_some());
}

#[test]
fn failed_switch_is_offered_again() {
    let mut m = loaded_monitor(vec![printer("Laser", false)]);
    let c = config(vec![association("Office", "Wi-Fi", "Laser")], PromptMode::OncePerConnection);
    assert!(m.evaluate_network(c.clone(), true, network("Office", "Wi-Fi"), 0).unwrap().prompt.is_some());
    m.switch_failed();
    let again = m.evaluate_network(c, false, network("Office", "Wi-Fi"), 10).unwrap();
    assert!(!again.show_network);
    assert_eq!(switch_printer(&again.prompt), Some("Laser".to_string()));
}

#[test]
fn every_connection_debounces_repeated_events() {
    let mut m = loaded_monitor(vec![printer("Laser", false)]);
    let c = config(vec![association("Office", "Wi-Fi", "Laser")], PromptMode::EveryConnection);
    assert!(m.evaluate_network(c.clone(), true, network("Office", "Wi-Fi"), 10_000).unwrap().prompt.is_some());
    assert!(m.evaluate_network(c.clone(), true, network("Office", "Wi-Fi"), 14_999).unwrap().prompt.is_none());
    assert!(m.evaluate_network(c.clone(), false, network("Office", "Wi-Fi"), 16_000).unwrap().prompt.is_none());
    assert!(m.evaluate_network(c, true, network("Office", "Wi-Fi"), 15_000).unwrap().prompt.is_some());
}

#[test]
fn clearing_the_network_forgets_prompts() {
    let mut m = loaded_monitor(vec![printer("Laser", false)]);
    let c = config(vec![association("Office", "Wi-Fi", "Laser")], PromptMode::OncePerConnection);
    m.evaluate_network(c.clone(), true, network("Office", "Wi-Fi"), 0);
    m.clear_network();
    assert!(m.current_network.is_none() && m.last_network_key.is_none() && m.last_connection_event.is_none());
    assert!(m.evaluate_network(c, true, network("Office", "Wi-Fi"), 1).unwrap().prompt.is_some());
    m.printers_unavailable();
    assert!(!m.printers_loaded);
}

#[test]
fn scheduler_runs_one_check_and_keeps_a_pending_one() {
    let mut s = CheckScheduler::new();
    assert!(s.begin_check());
    assert!(!s.begin_check());
    assert!(s.check_pending);
    assert!(matches!(s.record_result(true), CheckStep::Evaluate));
    assert!(s.finish_evaluation());
    assert!(!s.check_pending && !s.prompt_in_progress && !s.check_in_progress);
}

#[test]
fn scheduler_backs_off_and_announces_once() {
    let mut s = CheckScheduler::new();
    s.begin_check();
    match s.record_result(false) {
        CheckStep::Failed { notify, retry } => {
            assert!(notify);
            assert_eq!(retry, Some(Duration::from_secs(2)));
        },
        _ => panic!("expected a failure"),
    }
    assert_eq!(s.schedule_retry(), None);
    s.release_retry();
    s.begin_check();
    match s.record_result(false) {
        CheckStep::Failed { notify, retry } => {
            assert!(!notify);
            assert_eq!(retry, Some(Duration::from_secs(4)));
        },
        _ => panic!("expected a failure"),
    }
    s.release_retry();
    s.begin_check();
    assert!(matches!(s.record_result(true), CheckStep::Evaluate));
    assert_eq!(s.retry_attempt, 0);
    assert!(s.report_error());
    assert!(!s.report_error());
}

#[test]
fn scheduler_defers_results_during_an_evaluation() {
    let mut s = CheckScheduler::new();
    s.begin_check();
    assert!(matches!(s.record_result(true), CheckStep::Evaluate));
    s.begin_check();
    assert!(matches!(s.record_result(true), CheckStep::Deferred));
    assert!(s.finish_evaluation());
    let (notify, retry) = s.start_failed();
    assert!(notify);
    assert_eq!(retry, Some(Duration::from_secs(2)));
    s.abandon_check();
    assert!(!s.check_in_progress);
}

#[test]
fn saving_replaces_conflicting_associations() {
    let mut c = config(
        vec![
            association("Office", "Wi-Fi", "Old"),
            association("Home", "Wi-Fi", "Inkjet"),
            association(" office ", "NETWORK", "Older"),
            association("Office", "Ethernet", "Wired"),
        ],
        PromptMode::EveryConnection,
    );
    c.save_association(association("OFFICE", "wi-fi", "New"));
    let names: Vec<&str> = c.associations.iter().map(|a| a.printer.as_str()).collect();
    assert_eq!(names, vec!["Inkjet", "Wired", "New"]);
    c.save_association(association("OFFICE", "wi-fi", "New"));
    assert_eq!(c.associations.len(), 3);
    c.save_association(association("office", "Network", "Any"));
    let names: Vec<&str> = c.associations.iter().map(|a| a.printer.as_str()).collect();
    assert_eq!(names, vec!["Inkjet", "Any"]);
    assert_eq!(c.prompt_mode, PromptMode::EveryConnection);
}

#[test]
fn removing_associations_by_index() {
    let mut c = config(vec![association("A", "Wi-Fi", "1"), association("B", "Wi-Fi", "2")], PromptMode::OncePerConnection);
    assert!(!c.remove_association(2));
    assert_eq!(c.associations.len(), 2);
    assert!(c.remove_association(0));
    assert_eq!(c.associations[0].network, "B");
}

#[test]
fn association_input_is_checked_and_typed() {
    let printers = vec![printer("Laser", false)];
    let current = Some(network("Office Wi-Fi", "Wi-Fi"));
    let a = prepare_association("  office wi-fi ", 0, &printers, &current).unwrap();
    assert_eq!((a.network.as_str(), a.network_type.as_str(), a.printer.as_str()), ("office wi-fi", "Wi-Fi", "Laser"));
    let b = prepare_association("Cafe", 0, &printers, &current).unwrap();
    assert_eq!(b.network_type, "Network");
    assert!(prepare_association("  ", 0, &printers, &current).is_none());
    assert!(prepare_association("Cafe", 1, &printers, &current).is_none());

    let c = prepare_selected_association(" OFFICE WI-FI ", Some(0), &printers, &current).unwrap();
    assert_eq!((c.network.as_str(), c.network_type.as_str()), ("OFFICE WI-FI", "Wi-Fi"));
    let d = prepare_selected_association("Office", Some(0), &printers, &None).unwrap();
    assert_eq!(d.network_type, "Network");
    assert_eq!(prepare_selected_association(" ", Some(0), &printers, &current).unwrap_err(), AssociationInputError::MissingNetwork);
    assert_eq!(prepare_selected_association("x", None, &printers, &current).unwrap_err(), AssociationInputError::MissingPrinter);
    assert_eq!(prepare_selected_association("x", Some(3), &printers, &current).unwrap_err(), AssociationInputError::PrinterUnavailable);
}

#[test]
fn printer_cache_lives_two_seconds() {
    let mut cache = PrinterCache::new();
    assert!(cache.fresh(0).is_none());
    cache.store(1000, &vec![printer("Laser", true)]);
    assert_eq!(cache.fresh(2999).unwrap()[0].name, "Laser");
    assert!(cache.fresh(3000).is_none());
    assert!(cache.fresh(500).is_some());
    invalidate_printer_cache(&mut cache);
    assert!(cache.fresh(1000).is_none());
}

#[test]
fn missing_close_behavior_defaults_to_ask() {
    let c = load_config_result(ConfigFile::Missing).unwrap();
    assert_eq!(c.close_behavior, CloseBehavior::AskOncePerStartup);
    assert_eq!(c.prompt_mode, PromptMode::OncePerConnection);
    assert!(c.associations.is_empty());
    assert_eq!(CloseBehavior::default(), CloseBehavior::AskOncePerStartup);
}

#[test]
fn configuration_errors_are_explained() {
    assert_eq!(
        load_config_result(ConfigFile::Unreadable("Access is denied.".to_string())).unwrap_err(),
        "could not read configuration: Access is denied."
    );
    assert_eq!(
        load_config_result(ConfigFile::Corrupt {
            error: "EOF while parsing".to_string(),
            backup: "C:\\cfg\\config.json.corrupt-5".to_string(),
            backup_error: None,
        })
        .unwrap_err(),
        "configuration is invalid: EOF while parsing. Backup: C:\\cfg\\config.json.corrupt-5."
    );
    assert_eq!(
        load_config_result(ConfigFile::Corrupt {
            error: "bad".to_string(),
            backup: "b".to_string(),
            backup_error: Some("disk full".to_string()),
        })
        .unwrap_err(),
        "configuration is invalid: bad. Backup: b. Could not preserve corrupt file: disk full."
    );
    let kept = config(vec![association("A", "Wi-Fi", "1")], PromptMode::EveryConnection);
    assert_eq!(load_config_result(ConfigFile::Parsed(kept)).unwrap().associations.len(), 1);
}

#[test]
fn settings_lists_map_both_ways() {
    assert_eq!(prompt_mode_from_index(Some(1)), PromptMode::EveryConnection);
    assert_eq!(prompt_mode_from_index(Some(0)), PromptMode::OncePerConnection);
    assert_eq!(prompt_mode_from_index(None), PromptMode::OncePerConnection);
    assert_eq!(prompt_mode_index(PromptMode::EveryConnection), 1);
    assert_eq!(close_behavior_from_index(Some(2)), CloseBehavior::AlwaysQuit);
    assert_eq!(close_behavior_from_index(Some(1)), CloseBehavior::AlwaysMinimize);
    assert_eq!(close_behavior_from_index(Some(7)), CloseBehavior::AskOncePerStartup);
    assert_eq!(close_behavior_index(CloseBehavior::AlwaysQuit), 2);
}

#[test]
fn close_requests_follow_the_behavior() {
    assert_eq!(close_decision(CloseBehavior::AlwaysQuit, None), CloseDecision::Act(CloseAction::Quit));
    assert_eq!(close_decision(CloseBehavior::AlwaysMinimize, Some(CloseAction::Quit)), CloseDecision::Act(CloseAction::Minimize));
    assert_eq!(close_decision(CloseBehavior::AskOncePerStartup, None), CloseDecision::Ask);
    assert_eq!(close_decision(CloseBehavior::AskOncePerStartup, Some(CloseAction::Minimize)), CloseDecision::Act(CloseAction::Minimize));
    assert_eq!(close_choice(Some(true)), Some(CloseAction::Quit));
    assert_eq!(close_choice(Some(false)), Some(CloseAction::Minimize));
    assert_eq!(close_choice(None), None);
}

#[test]
fn management_state_takes_in_loaded_data() {
    let mut s = ManagementState::new(Err("could not read configuration: x".to_string()));
    assert_eq!(s.status, "could not read configuration: x");
    assert!(s.data_loading);
    assert!(!s.begin_refresh());
    s.data_loading = false;
    s.apply_data(
        Ok(config(vec![], PromptMode::EveryConnection)),
        Ok(vec![printer("A", false), printer("B", true)]),
        Ok(Some(network("Office", "Wi-Fi"))),
        "Ready.",
    );
    assert_eq!(s.status, "Ready.");
    assert_eq!(s.selected_printer, Some(1));
    assert_eq!(s.network_name, "Office");
    assert_eq!(s.prompt_mode, PromptMode::EveryConnection);
    s.apply_data(Err("one".to_string()), Ok(vec![]), Err("two".to_string()), "Ready.");
    assert_eq!(s.status, "Could not refresh status: one two");
    assert_eq!(s.selected_printer, None);
    assert_eq!(s.network_name, "Office");
    assert!(s.begin_refresh());
    assert_eq!(s.status, "Refreshing printers and network status…");
    assert_eq!(s.network_name, "Office");
    assert_eq!(s.prompt_mode, PromptMode::EveryConnection);
    assert!(!s.begin_refresh());
    assert_eq!(s.status, "Refreshing printers and network status…");
    assert_eq!(s.network_name, "Office");
    assert!(s.data_loading);
}

#[test]
fn preselection_prefers_the_default_printer() {
    assert_eq!(default_printer_index(&vec![]), None);
    assert_eq!(default_printer_index(&vec![printer("A", false), printer("B", false)]), Some(0));
    assert_eq!(default_printer_index(&vec![printer("A", false), printer("B", true), printer("C", true)]), Some(1));
}

#[test]
fn status_colour_follows_failure_words() {
    assert!(status_is_error("Could not save changes: x"));
    assert!(status_is_error("printer enumeration failed with status 1"));
    assert!(status_is_error("configuration is invalid"));
    assert!(status_is_error("User interface unavailable"));
    assert!(!status_is_error("Association saved."));
    assert!(!status_is_error("could not"));
}

#[test]
fn row_keys_stay_distinct_for_identical_associations() {
    let rows = association_row_keys(&vec![
        association("Office", "Wi-Fi", "Laser"),
        association(" office", "WI-FI", "laser "),
        association("Home", "Wi-Fi", "Inkjet"),
    ]);
    assert_eq!(rows[0], ("office::wi-fi::laser".to_string(), 1));
    assert_eq!(rows[1], ("office::wi-fi::laser".to_string(), 2));
    assert_eq!(rows[2], ("home::wi-fi::inkjet".to_string(), 1));
}

#[test]
fn command_wait_respects_the_deadline() {
    assert!(matches!(next_wait_step("task", ProcessPoll::Exited, 99, 10, "15"), WaitStep::Collect));
    assert!(matches!(next_wait_step("task", ProcessPoll::Running, 9, 10, "15"), WaitStep::Sleep));
    match next_wait_step("printer enumeration", ProcessPoll::Running, 10, 10, "15") {
        WaitStep::Abandon(message) => assert_eq!(message, "printer enumeration timed out after 15 seconds"),
        _ => panic!("expected a timeout"),
    }
    match next_wait_step("network detection", ProcessPoll::Failed("denied".to_string()), 0, 10, "15") {
        WaitStep::Abandon(message) => assert_eq!(message, "could not monitor network detection: denied"),
        _ => panic!("expected a failure"),
    }
}

#[test]
fn saved_association_is_the_only_one_that_applies() {
    let mut c = config(
        vec![association("Office", "Network", "Old"), association("office ", "WI-FI", "Older"), association("Office", "Ethernet", "Wired")],
        PromptMode::OncePerConnection,
    );
    c.save_association(association("Office", "Wi-Fi", "New"));
    let here = network("OFFICE", "wi-fi");
    let applying: Vec<&str> = c
        .associations
        .iter()
        .filter(|a| netprintswitch::model::association_matches(a, &here))
        .map(|a| a.printer.as_str())
        .collect();
    assert_eq!(applying, vec!["New"]);
}

#[test]
fn removing_the_only_association_silences_the_network() {
    let mut m = loaded_monitor(vec![printer("Laser", false)]);
    let mut c = config(vec![association("Home", "Wi-Fi", "Inkjet"), association("Office", "Wi-Fi", "Laser")], PromptMode::EveryConnection);
    assert!(c.remove_association(1));
    let e = m.evaluate_network(c, true, network("Office", "Wi-Fi"), 0).unwrap();
    assert!(e.prompt.is_none());
}

#[test]
fn replaced_associations_are_listed_before_saving() {
    let c = config(
        vec![
            association(" office ", "Wi-Fi", "A"),
            association("Home", "Wi-Fi", "B"),
            association("OFFICE", "Network", "C"),
            association("office", "Ethernet", "D"),
        ],
        PromptMode::OncePerConnection,
    );
    assert_eq!(c.replaced_associations(&association("Office", "wi-fi", "E")), vec![0, 2]);
    assert_eq!(c.replaced_associations(&association("Office", "Network", "E")), vec![0, 2, 3]);
    assert!(c.replaced_associations(&association("Cafe", "Wi-Fi", "E")).is_empty());
}

#[test]
fn settings_edits_are_written_and_reported() {
    let mut s = ManagementState::new(Ok(config(vec![], PromptMode::OncePerConnection)));
    s.network_name = "Office".to_string();
    let edit = ConfigEdit::SetPromptMode(PromptMode::EveryConnection);
    assert!(s.prepare_edit(Err("disk".to_string()), &edit).is_none());
    assert_eq!(s.status, "Could not read configuration before saving.");
    let written = s.prepare_edit(Ok(config(vec![], PromptMode::OncePerConnection)), &edit).unwrap();
    assert_eq!(written.prompt_mode, PromptMode::EveryConnection);
    s.finish_edit(&edit, written, Ok(()));
    assert_eq!(s.prompt_mode, PromptMode::EveryConnection);
    assert_eq!(s.status, "Prompt preference saved.");
    assert_eq!(s.network_name, "Office");

    let edit = ConfigEdit::SetCloseBehavior(CloseBehavior::AlwaysQuit);
    let written = s.prepare_edit(Ok(config(vec![], PromptMode::OncePerConnection)), &edit).unwrap();
    s.finish_edit(&edit, written, Err("denied".to_string()));
    assert_eq!(s.status, "Could not save close behavior: denied");
    assert_eq!(s.config.close_behavior, CloseBehavior::AskOncePerStartup);

    let edit = ConfigEdit::RemoveAssociation(1);
    let stored = config(vec![association("Office", "Wi-Fi", "A")], PromptMode::OncePerConnection);
    assert!(s.prepare_edit(Ok(stored), &edit).is_none());
    assert_eq!(s.status, "Association list changed; refresh and try again.");
    let edit = ConfigEdit::RemoveAssociation(0);
    let stored = config(vec![association("Office", "Wi-Fi", "A")], PromptMode::OncePerConnection);
    let written = s.prepare_edit(Ok(stored), &edit).unwrap();
    assert!(written.associations.is_empty());
    s.finish_edit(&edit, written, Err("full".to_string()));
    assert_eq!(s.status, "Could not save changes: full");

    let edit = ConfigEdit::SaveAssociation(association("Office", "Wi-Fi", "B"));
    let stored = config(vec![association("office", "Network", "A")], PromptMode::OncePerConnection);
    let written = s.prepare_edit(Ok(stored), &edit).unwrap();
    s.finish_edit(&edit, written, Ok(()));
    assert_eq!(s.status, "Association saved.");
    assert_eq!(s.config.associations.len(), 1);
    assert_eq!(s.config.associations[0].printer, "B");
    assert_eq!(s.prompt_mode, PromptMode::EveryConnection);
}

#[test]
fn association_input_errors_reach_the_status_line() {
    let mut s = ManagementState::new(Ok(config(vec![], PromptMode::OncePerConnection)));
    s.printers = vec![printer("Laser", false)];
    s.network_name = "  ".to_string();
    assert!(s.association_to_save().is_none());
    assert_eq!(s.status, "Enter a network name first.");
    s.network_name = " Office ".to_string();
    assert!(s.association_to_save().is_none());
    assert_eq!(s.status, "Select a printer first.");
    s.selected_printer = Some(3);
    assert!(s.association_to_save().is_none());
    assert_eq!(s.status, "The selected printer is no longer available.");
    s.selected_printer = Some(0);
    let a = s.association_to_save().unwrap();
    assert_eq!((a.network.as_str(), a.network_type.as_str(), a.printer.as_str()), ("Office", "Network", "Laser"));
}

#[test]
fn display_texts_name_printers_networks_and_associations() {
    assert_eq!(printer_entry(&printer("Laser", true)), "Laser (default)");
    assert_eq!(printer_entry(&printer("Laser", false)), "Laser");
    assert_eq!(printer_choice(&printer("Laser", true)), "Laser (current default)");
    let a = association("Office", "Wi-Fi", "Laser");
    assert_eq!(association_line(&a), "Office [Wi-Fi]  =>  Laser");
    assert_eq!(association_detail(&a), "Wi-Fi · Laser");
    assert_eq!(network_label(&Some(network("Office", "Wi-Fi"))), "Office (Wi-Fi)");
    assert_eq!(network_label(&None), "No active network");
    assert_eq!(network_summary("", &None), "No active network detected");
    assert_eq!(network_summary("Office", &None), "Office · Not detected");
    assert_eq!(network_summary("Office", &Some(network("Office", "Wi-Fi"))), "Office · Wi-Fi");
}
