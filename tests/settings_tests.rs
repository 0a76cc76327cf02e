use seed_retriever::bitcoincore_client::{BitcoincoreClientInput, TimeoutGuiData, UrlGuiData};
use seed_retriever::explorer::{ExplorerInput, Network};
use seed_retriever::gui_input::{GuiError, GuiInput};
use seed_retriever::paths::{is_exploration_text_safe, space_from_setting};
use seed_retriever::exploration::{SpaceError, HARDENED_OFFSET};
use seed_retriever::retriever_specific::RetrieverSpecificInput;
use seed_retriever::search::ScriptTemplate;

const MNEMONIC: &str = "camera phrase loan curtain island hammer soft fault hockey enter power busy";

#[test]
fn client_defaults_are_typed_but_not_in_use() {
    let input = BitcoincoreClientInput::new();
    assert_eq!(input.get_gui_url(), "127.0.0.1");
    assert_eq!(input.get_gui_rpc_port(), "8332");
    assert_eq!(input.get_gui_timeout(), "6800");
    assert_eq!(input.get_gui_cookie_path(), "");
    assert!(input.is_gui_url_sane());
    assert!(input.is_gui_rpc_port_sane());
    assert!(input.is_gui_timeout_sane());
    assert!(!input.is_gui_cookie_path_sane());
    assert!(!input.is_gui_input_sane());
    assert_eq!(input.get_in_use_url(), "");
    assert_eq!(input.get_in_use_timeout(), "");
    assert!(!input.is_url_fixed());
    assert!(!input.is_input_fixed());
}

#[test]
fn insane_client_input_is_not_put_in_use() {
    let mut input = BitcoincoreClientInput::new();
    assert_eq!(input.gui_to_in_use(), Err(GuiError::GuiInputIsInsane));
    assert_eq!(input.get_in_use_rpc_port(), "");
}

#[test]
fn sane_client_input_is_put_in_use_and_fixed() {
    let mut input = BitcoincoreClientInput::new();
    input.set_url_from_gui_input("  10.0.0.2 ".to_string());
    input.set_rpc_port_from_gui_input("18443".to_string());
    input.set_timeout_from_gui_input(" 0042 ".to_string());
    input.set_cookie_path_from_gui_input(" /tmp/x/.cookie ".to_string(), true);
    assert_eq!(input.get_gui_url(), "10.0.0.2");
    assert_eq!(input.get_gui_timeout(), "0042");
    assert_eq!(input.get_gui_cookie_path(), "/tmp/x/.cookie");
    assert!(input.is_gui_input_sane());
    assert_eq!(input.gui_to_in_use(), Ok(()));
    assert_eq!(input.get_in_use_url(), "10.0.0.2");
    assert_eq!(input.get_in_use_rpc_port(), "18443");
    assert_eq!(input.get_in_use_timeout(), "42");
    assert_eq!(input.get_in_use_cookie_path(), "/tmp/x/.cookie");
    assert!(input.is_url_fixed());
    assert!(input.is_rpc_port_fixed());
    assert!(input.is_cookie_path_fixed());
    assert!(!input.is_timeout_fixed());
    assert!(!input.is_input_fixed());
    input.set_timeout_from_gui_input("42".to_string());
    assert!(input.is_timeout_fixed());
    assert!(input.is_input_fixed());
}

#[test]
fn client_field_checks() {
    assert!(!UrlGuiData::new("localhost".to_string()).is_sane());
    assert!(UrlGuiData::new("1a2b3c4".to_string()).is_sane());
    assert!(!TimeoutGuiData::new("99999999999999999999".to_string()).is_sane());
    assert!(!TimeoutGuiData::new("".to_string()).is_sane());
    assert!(TimeoutGuiData::new("18446744073709551615".to_string()).is_sane());
}

#[test]
fn search_settings_defaults_and_selection() {
    let mut input = RetrieverSpecificInput::new();
    assert!(input.get_gui_p2pk() && input.get_gui_p2tr());
    assert!(input.is_gui_selected_descriptors_sane());
    assert!(!input.is_gui_input_sane());
    assert_eq!(input.gui_to_in_use(), Err(GuiError::GuiInputIsInsane));
    input.set_data_dir_from_gui_input(" /data ".to_string(), true);
    input.set_p2pk_inclusion_from_gui_input(false);
    input.set_p2shwpkh_inclusion_from_gui_input(false);
    assert_eq!(input.get_gui_data_dir(), "/data");
    assert_eq!(input.gui_to_in_use(), Ok(()));
    assert_eq!(
        input.get_in_use_selected_descriptors(),
        vec![ScriptTemplate::P2pkh, ScriptTemplate::P2wpkh, ScriptTemplate::P2tr]
    );
    assert!(!input.get_in_use_p2pk());
    assert!(input.get_in_use_p2pkh());
    assert_eq!(input.get_in_use_data_dir(), "/data");
    assert!(input.is_input_fixed());
    let sel = input.get_in_use_template_selection();
    assert!(!sel.p2pk && sel.p2pkh && sel.p2wpkh && !sel.p2shwpkh && sel.p2tr);
    input.set_p2tr_inclusion_from_gui_input(false);
    assert!(!input.is_selected_descriptors_fixed());
    input.set_p2pkh_inclusion_from_gui_input(false);
    input.set_p2wpkh_inclusion_from_gui_input(false);
    assert!(!input.is_gui_selected_descriptors_sane());
}

#[test]
fn explorer_settings_round_trip() {
    let mut input = ExplorerInput::new();
    assert_eq!(input.get_gui_base_derivation_paths(), "m");
    assert_eq!(input.get_gui_exploration_path(), "*");
    assert_eq!(input.get_gui_exploration_depth(), "100");
    assert_eq!(input.get_gui_network(), Network::Bitcoin);
    assert!(!input.is_gui_mnemonic_sane());
    assert_eq!(input.gui_to_in_use(), Err(GuiError::GuiInputIsInsane));
    assert_eq!(input.get_in_use_base_derivation_paths(), vec!["".to_string()]);
    input.set_mnemonic_from_gui_input(format!("  {}  ", MNEMONIC));
    input.set_base_derivation_paths_from_gui_input("m/84'/0'/0';m/44h/0h/0h".to_string());
    input.set_exploration_path_from_gui_input(" */0..2 ".to_string());
    input.set_exploration_depth_from_gui_input("5".to_string());
    input.set_network_from_gui_input(Network::Testnet);
    input.set_passphrase_from_gui_input("pass".to_string());
    input.set_sweep_from_gui_input(true);
    assert!(input.is_gui_mnemonic_sane());
    assert!(input.is_gui_base_derivation_paths_sane());
    assert!(input.is_gui_exploration_path_sane());
    assert!(input.is_gui_input_sane());
    assert_eq!(input.gui_to_in_use(), Ok(()));
    assert!(input.is_input_fixed());
    let setting = input.to_explorer_setting();
    assert_eq!(setting.mnemonic, MNEMONIC);
    assert_eq!(setting.base_derivation_paths, vec!["m/84'/0'/0'".to_string(), "m/44h/0h/0h".to_string()]);
    assert_eq!(setting.exploration_path, "*/0..2");
    assert_eq!(setting.exploration_depth, 5);
    assert_eq!(setting.network, Network::Testnet);
    assert!(setting.sweep);
    input.set_exploration_depth_from_gui_input("0".to_string());
    assert!(!input.is_gui_exploration_depth_sane());
    assert!(!input.is_exploration_depth_fixed());
}

#[test]
fn explorer_rejects_bad_paths() {
    let mut input = ExplorerInput::new();
    input.set_base_derivation_paths_from_gui_input("m/0;x/1".to_string());
    assert!(!input.is_gui_base_derivation_paths_sane());
    input.set_exploration_path_from_gui_input("+/1".to_string());
    assert!(!input.is_gui_exploration_path_sane());
    input.set_exploration_path_from_gui_input("12345678901".to_string());
    assert!(!input.is_gui_exploration_path_sane());
}

#[test]
fn safe_exploration_text() {
    assert!(is_exploration_text_safe("*/0..999999999'"));
    assert!(!is_exploration_text_safe("*/0..9999999999"));
    assert!(!is_exploration_text_safe("*/é"));
}

#[test]
fn space_from_written_settings() {
    let bases = vec!["m/84'/0'".to_string(), "m".to_string()];
    let sp = space_from_setting(&bases, "*'/0..1", 2).ok().unwrap();
    assert_eq!(sp.total_paths(), Some(2 * 3 * 2));
    assert_eq!(sp.path_at(0), vec![84 + HARDENED_OFFSET, HARDENED_OFFSET, HARDENED_OFFSET, 0]);
    assert_eq!(sp.path_at(1), vec![HARDENED_OFFSET, 0]);
    assert_eq!(sp.path_at(3), vec![HARDENED_OFFSET, 1]);
    assert_eq!(sp.path_at(5), vec![1 + HARDENED_OFFSET, 0]);
    assert!(matches!(space_from_setting(&vec![], "*", 2), Err(SpaceError::NoBasePath)));
    assert!(matches!(space_from_setting(&vec!["q".to_string()], "*", 2), Err(SpaceError::InvalidBasePath)));
    assert!(matches!(space_from_setting(&bases, "+", 2), Err(SpaceError::InvalidExplorationPath)));
    assert!(matches!(space_from_setting(&bases, "0..2147483648", 2), Err(SpaceError::InvalidExplorationPath)));
    assert!(matches!(space_from_setting(&bases, "*", 2147483648), Err(SpaceError::IndexOutOfRange)));
}

#[test]
fn typed_client_settings_are_trimmed_once() {
    let mut input = BitcoincoreClientInput::new();
    input.set_rpc_port_from_gui_input(" 8332 ".to_string());
    assert_eq!(input.get_gui_rpc_port(), "8332");
    assert!(input.is_gui_rpc_port_sane());
    input.set_timeout_from_gui_input("99999999999999999999".to_string());
    assert_eq!(input.get_gui_timeout(), "99999999999999999999");
    assert!(!input.is_gui_timeout_sane());
    input.set_url_from_gui_input("\u{3000}\t1.2.3.4\n".to_string());
    assert_eq!(input.get_gui_url(), "1.2.3.4");
    assert!(input.is_gui_url_sane());
}
