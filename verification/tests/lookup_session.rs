use nasl_core::ChannelAction;
use nasl_core::ChannelEvent;
use nasl_core::Module;
use nasl_core::Registry;
use nasl_core::RemoteExec;
use nasl_core::i64_to_dec;
use nasl_core::u64_to_dec;
use nasl_core::usize_to_dec;

#[test]
fn earlier_registered_module_wins_a_name_clash() {
    let mut a: Module<u64> = Module::new();
    a.define("foo".to_string(), 1);
    let mut b: Module<u64> = Module::new();
    b.define("foo".to_string(), 2);
    b.define("bar".to_string(), 3);
    let mut registry = Registry::new();
    registry.register(a);
    registry.register(b);
    assert_eq!(registry.lookup("foo"), Some(&1));
    assert_eq!(registry.lookup("bar"), Some(&3));
    assert_eq!(registry.lookup("baz"), None);
}

#[test]
fn within_a_module_the_first_definition_wins() {
    let mut m: Module<u64> = Module::new();
    m.define("foo".to_string(), 1);
    m.define("foo".to_string(), 2);
    assert_eq!(m.lookup("foo"), Some(&1));
    assert_eq!(m.lookup("missing"), None);
}

#[test]
fn an_empty_registry_resolves_nothing() {
    let registry: Registry<u64> = Registry::new();
    assert_eq!(registry.lookup("foo"), None);
}

#[test]
fn output_events_are_written_and_exit_status_recorded() {
    let mut run = RemoteExec::new();
    let a = run.step(Some(ChannelEvent::Data(vec![104u8, 105u8])));
    assert_eq!(a, ChannelAction::WriteOutput(vec![104u8, 105u8]));
    let a = run.step(Some(ChannelEvent::ExitStatus(0)));
    assert_eq!(a, ChannelAction::Nothing);
    let a = run.step(Some(ChannelEvent::Other));
    assert_eq!(a, ChannelAction::Nothing);
    let a = run.step(None);
    assert_eq!(a, ChannelAction::Nothing);
    assert_eq!(run.result(), Some(0));
}

#[test]
fn a_run_without_an_exit_status_reports_none() {
    let mut run = RemoteExec::new();
    run.step(Some(ChannelEvent::Data(vec![1u8])));
    run.step(None);
    assert_eq!(run.result(), None);
}

#[test]
fn the_last_exit_status_seen_wins() {
    let mut run = RemoteExec::new();
    run.step(Some(ChannelEvent::ExitStatus(1)));
    run.step(Some(ChannelEvent::ExitStatus(127)));
    run.step(None);
    assert_eq!(run.result(), Some(127));
}

#[test]
fn decimal_renderings_are_exact() {
    assert_eq!(u64_to_dec(0), "0");
    assert_eq!(u64_to_dec(7), "7");
    assert_eq!(u64_to_dec(1234), "1234");
    assert_eq!(u64_to_dec(u64::MAX), "18446744073709551615");
    assert_eq!(usize_to_dec(usize::MAX), "18446744073709551615");
    assert_eq!(i64_to_dec(-1), "-1");
    assert_eq!(i64_to_dec(0), "0");
    assert_eq!(i64_to_dec(i64::MIN), "-9223372036854775808");
    assert_eq!(i64_to_dec(i64::MAX), "9223372036854775807");
}
