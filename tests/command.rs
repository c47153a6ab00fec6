use plim::ansible::{AnsibleConfig, AnsibleGenCmd, ansible_command};
use plim::errors::PlimErrorKind;
use plim::pipeline::TriggerPipelineRequest;
use plim::value::AnyValue;

fn base() -> AnsibleConfig {
    AnsibleConfig::new("site.yml".to_string(), "hosts.ini".to_string())
}

fn cmd(c: &AnsibleConfig) -> String {
    ansible_command(c, &None)
}

#[test]
fn minimal_config_gives_bare_command() {
    assert_eq!(cmd(&base()), "ansible-playbook site.yml -i hosts.ini");
}

#[test]
fn minimal_config_with_empty_request_vars() {
    let c = base();
    assert_eq!(ansible_command(&c, &Some(vec![])), "ansible-playbook site.yml -i hosts.ini");
}

#[test]
fn false_flags_emit_nothing() {
    let mut c = base();
    c.ask_pass = Some(false);
    c.privilege_escalation = Some(false);
    c.ask_become_pass = Some(false);
    c.syntax_check = Some(false);
    c.diff = Some(false);
    c.check = Some(false);
    c.list_hosts = Some(false);
    c.list_tasks = Some(false);
    c.list_tags = Some(false);
    assert_eq!(cmd(&c), "ansible-playbook site.yml -i hosts.ini");
}

#[test]
fn true_flags_emit_in_fixed_order() {
    let mut c = base();
    c.list_tags = Some(true);
    c.ask_pass = Some(true);
    c.diff = Some(true);
    c.privilege_escalation = Some(true);
    c.ask_become_pass = Some(true);
    c.syntax_check = Some(true);
    c.check = Some(true);
    c.list_hosts = Some(true);
    c.list_tasks = Some(true);
    assert_eq!(
        cmd(&c),
        "ansible-playbook site.yml -i hosts.ini -k -b -K --syntax-check --diff --check --list-hosts --list-tasks --list-tags"
    );
}

#[test]
fn connection_block_in_order() {
    let mut c = base();
    c.private_key = Some("id_rsa".to_string());
    c.remote_user = Some("deploy".to_string());
    c.connection = Some("ssh".to_string());
    c.timeout = Some(30);
    c.ssh_common_args = Some("-o X=1".to_string());
    c.sftp_extra_args = Some("-l 1".to_string());
    c.scp_extra_args = Some("-C".to_string());
    c.ssh_extra_args = Some("-v".to_string());
    assert_eq!(
        cmd(&c),
        "ansible-playbook site.yml -i hosts.ini --private-key id_rsa -u deploy -c ssh -T 30 --ssh-common-args '-o X=1' --sftp-extra-args '-l 1' --scp-extra-args '-C' --ssh-extra-args '-v'"
    );
}

#[test]
fn escalation_and_playbook_options() {
    let mut c = base();
    c.privilege_escalation = Some(true);
    c.become_method = Some("sudo".to_string());
    c.become_user = Some("root".to_string());
    c.tags = Some(vec!["a".to_string(), "b".to_string()]);
    c.skip_tags = Some("slow".to_string());
    c.forks = Some(10);
    c.limit_hosts = Some(vec!["h1".to_string(), "h2".to_string()]);
    c.verbosity = Some(3);
    c.vault_password_file = Some("vault.txt".to_string());
    c.start_at_task = Some("Install pkg".to_string());
    assert_eq!(
        cmd(&c),
        "ansible-playbook site.yml -i hosts.ini -b --become-method sudo --become-user root -t a,b --skip-tags slow -f 10 -l h1,h2 -vvv --vault-password-file vault.txt --start-at-task 'Install pkg'"
    );
}

#[test]
fn empty_tags_and_zero_verbosity_are_omitted() {
    let mut c = base();
    c.tags = Some(vec![]);
    c.limit_hosts = Some(vec![]);
    c.verbosity = Some(0);
    assert_eq!(cmd(&c), "ansible-playbook site.yml -i hosts.ini");
}

#[test]
fn inline_inventory_adds_trailing_comma_to_limit() {
    let mut c = base();
    c.limit_hosts = Some(vec!["10.0.0.1".to_string()]);
    c.is_inventory_inline = Some(true);
    assert_eq!(cmd(&c), "ansible-playbook site.yml -i hosts.ini -l 10.0.0.1,");
    c.is_inventory_inline = Some(false);
    assert_eq!(cmd(&c), "ansible-playbook site.yml -i hosts.ini -l 10.0.0.1");
}

#[test]
fn large_numbers_in_decimal() {
    let mut c = base();
    c.forks = Some(1234567890);
    c.timeout = Some(0);
    assert_eq!(cmd(&c), "ansible-playbook site.yml -i hosts.ini -T 0 -f 1234567890");
}

#[test]
fn config_vars_precede_request_vars() {
    let mut c = base();
    c.extra_vars = Some(vec![
        ("env".to_string(), "prod".to_string()),
        ("region".to_string(), "eu".to_string()),
    ]);
    let req = Some(vec![
        ("env".to_string(), Some(AnyValue::String("dev".to_string()))),
        ("skip".to_string(), None),
        ("hosts".to_string(), Some(AnyValue::VecString(vec!["a".to_string(), "b".to_string()]))),
        ("dry".to_string(), Some(AnyValue::Bool(true))),
    ]);
    assert_eq!(
        ansible_command(&c, &req),
        "ansible-playbook site.yml -i hosts.ini -e env='prod' -e region='eu' -e env='dev' -e hosts='a,b' -e dry='true'"
    );
}

#[test]
fn gen_ansible_cmd_uses_request_data() {
    let mut c = base();
    c.check = Some(true);
    let req = TriggerPipelineRequest::new(
        Some(vec![("x".to_string(), Some(AnyValue::String("1".to_string())))]),
        Some(c),
        None,
    );
    let out = AnsibleGenCmd.gen_ansible_cmd(&req);
    match out {
        Ok(s) => assert_eq!(s, "ansible-playbook site.yml -i hosts.ini --check -e x='1'"),
        Err(_) => panic!("expected a command"),
    }
}

#[test]
fn gen_ansible_cmd_without_settings_is_validation_error() {
    let req = TriggerPipelineRequest::new(None, None, None);
    assert!(matches!(AnsibleGenCmd.gen_ansible_cmd(&req), Err(PlimErrorKind::Validation(_))));
}
