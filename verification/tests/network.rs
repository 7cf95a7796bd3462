use wikisyncd::network::{
    detect_metered_network, interpret, parse_nmcli_output, MeteredNetworkProbeOutcome,
    MeteredNetworkState, MeteredNetworkStatus, NetworkProbe, MAX_OUTPUT_BYTES,
};

#[test]
fn explicit_and_guessed_costs_have_the_same_policy_meaning() {
    for value in ["yes", "guess-yes"] {
        assert_eq!(
            parse_nmcli_output(&format!(
                "GENERAL.STATE:100 (connected)\nGENERAL.METERED:{value}\n"
            )),
            Some(MeteredNetworkStatus {
                state: MeteredNetworkState::Metered,
                outcome: MeteredNetworkProbeOutcome::Reported,
            })
        );
    }
    for value in ["no", "guess-no"] {
        assert_eq!(
            parse_nmcli_output(&format!(
                "GENERAL.STATE:100 (connected)\nGENERAL.METERED:{value}\n"
            )),
            Some(MeteredNetworkStatus {
                state: MeteredNetworkState::Unmetered,
                outcome: MeteredNetworkProbeOutcome::Reported,
            })
        );
    }
}

#[test]
fn inactive_devices_do_not_make_an_active_report_ambiguous() {
    let output = "GENERAL.STATE:100 (connected)\nGENERAL.METERED:no\n\n\
                  GENERAL.STATE:30 (disconnected)\nGENERAL.METERED:unknown\n";
    assert_eq!(
        parse_nmcli_output(output),
        Some(MeteredNetworkStatus {
            state: MeteredNetworkState::Unmetered,
            outcome: MeteredNetworkProbeOutcome::Reported,
        })
    );
}

#[test]
fn unknown_or_missing_active_cost_is_fail_visible() {
    assert_eq!(
        parse_nmcli_output("GENERAL.STATE:100 (connected)\nGENERAL.METERED:unknown\n"),
        Some(MeteredNetworkStatus::unknown(
            MeteredNetworkProbeOutcome::Indeterminate
        ))
    );
    assert_eq!(
        parse_nmcli_output("GENERAL.STATE:30 (disconnected)\nGENERAL.METERED:no\n"),
        Some(MeteredNetworkStatus::unknown(
            MeteredNetworkProbeOutcome::Indeterminate
        ))
    );
}

#[test]
fn conflicting_or_partially_unknown_active_costs_are_ambiguous() {
    for second in ["no", "unknown"] {
        let output = format!(
            "GENERAL.STATE:100 (connected)\nGENERAL.METERED:yes\n\n\
             GENERAL.STATE:100 (connected)\nGENERAL.METERED:{second}\n"
        );
        assert_eq!(
            parse_nmcli_output(&output),
            Some(MeteredNetworkStatus::unknown(
                MeteredNetworkProbeOutcome::Ambiguous
            ))
        );
    }
}

#[test]
fn malformed_or_unrecognized_reports_are_rejected() {
    assert_eq!(
        parse_nmcli_output("GENERAL.STATE:connected\nGENERAL.METERED:no\n"),
        None
    );
    assert_eq!(
        parse_nmcli_output("GENERAL.STATE:100 (connected)\nGENERAL.METERED:maybe\n"),
        None
    );
    assert_eq!(parse_nmcli_output("GENERAL.STATE:100 (connected)\n"), None);
}

#[test]
fn unsupported_targets_do_not_guess() {
    assert_eq!(
        detect_metered_network(&NetworkProbe::Unsupported),
        MeteredNetworkStatus::unknown(MeteredNetworkProbeOutcome::Unsupported)
    );
}

#[test]
fn every_failed_probe_is_named() {
    assert_eq!(
        detect_metered_network(&NetworkProbe::CommandUnavailable).outcome,
        MeteredNetworkProbeOutcome::CommandUnavailable
    );
    assert_eq!(
        detect_metered_network(&NetworkProbe::CommandFailed).outcome,
        MeteredNetworkProbeOutcome::CommandFailed
    );
    assert_eq!(
        detect_metered_network(&NetworkProbe::TimedOut).outcome,
        MeteredNetworkProbeOutcome::TimedOut
    );
    assert_eq!(
        detect_metered_network(&NetworkProbe::Finished {
            success: false,
            output: Vec::new(),
        })
        .state,
        MeteredNetworkState::Unknown
    );
}

#[test]
fn finished_probes_are_interpreted() {
    let report = b"GENERAL.STATE:100 (connected)\nGENERAL.METERED:yes\n";
    assert_eq!(interpret(true, report).state, MeteredNetworkState::Metered);
    assert_eq!(interpret(false, report).state, MeteredNetworkState::Unknown);
    assert_eq!(
        interpret(true, &[0xff, 0xfe]).outcome,
        MeteredNetworkProbeOutcome::InvalidOutput
    );
    let oversized = vec![b'\n'; MAX_OUTPUT_BYTES + 1];
    assert_eq!(
        interpret(true, &oversized).outcome,
        MeteredNetworkProbeOutcome::InvalidOutput
    );
    assert_eq!(
        detect_metered_network(&NetworkProbe::Finished {
            success: true,
            output: report.to_vec(),
        }),
        MeteredNetworkStatus {
            state: MeteredNetworkState::Metered,
            outcome: MeteredNetworkProbeOutcome::Reported,
        }
    );
}
