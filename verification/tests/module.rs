use lastcmd::builtin::{new_builtin, Builtin, Handler};
use lastcmd::hooks::{boot_, cleanup_, enables_, features_, finish_, setup_, Action};
use lastcmd::module::{Features, Module};

fn lastcmd_descriptor() -> Builtin {
    Builtin {
        name: "lastcmd",
        flags: 0,
        handlerfunc: Some(Handler::LastCmd),
        minargs: 1,
        maxargs: 1,
        funcid: 0,
        optstr: None,
        defopts: None,
    }
}

#[test]
fn new_builtin_fills_the_descriptor() {
    let descriptor = new_builtin("recall", Some(Handler::LastCmd), 2, 5);
    assert_eq!(descriptor.name, "recall");
    assert_eq!(descriptor.handlerfunc, Some(Handler::LastCmd));
    assert_eq!(descriptor.minargs, 2);
    assert_eq!(descriptor.maxargs, 5);
    assert_eq!(descriptor.flags, 0);
    assert_eq!(descriptor.funcid, 0);
    assert_eq!(descriptor.optstr, None);
    assert_eq!(descriptor.defopts, None);
}

#[test]
fn new_builtin_does_not_validate() {
    let descriptor = new_builtin("", None, 3, -1);
    assert_eq!(descriptor.name, "");
    assert_eq!(descriptor.handlerfunc, None);
    assert_eq!(descriptor.minargs, 3);
    assert_eq!(descriptor.maxargs, -1);
}

#[test]
fn new_module_is_empty() {
    let module = Module::new();
    assert!(module.builtins().is_empty());
    assert_eq!(module.features(), Features { bn_list: None, bn_size: 0 });
}

#[test]
fn loaded_module_offers_lastcmd() {
    let module = Module::loaded();
    assert_eq!(module.builtins(), &vec![lastcmd_descriptor()]);
    assert_eq!(module.features(), Features { bn_list: Some(0), bn_size: 1 });
}

#[test]
fn lastcmd_takes_exactly_one_argument() {
    let module = Module::loaded();
    let descriptor = module.builtins()[0];
    assert_eq!(descriptor.name, "lastcmd");
    assert_eq!(descriptor.minargs, 1);
    assert_eq!(descriptor.maxargs, 1);
}

#[test]
fn populate_fills_once() {
    let mut module = Module::new();
    module.populate();
    assert_eq!(module.builtins(), &vec![lastcmd_descriptor()]);
    assert_eq!(module.features(), Features { bn_list: Some(0), bn_size: 1 });
    module.populate();
    assert_eq!(module.builtins(), &vec![lastcmd_descriptor()]);
    assert_eq!(module.features(), Features { bn_list: Some(0), bn_size: 1 });
}

#[test]
fn hooks_without_work_succeed() {
    assert_eq!(setup_(), Action::Return(0));
    assert_eq!(boot_(), Action::Return(0));
    assert_eq!(finish_(), Action::Return(0));
    assert_eq!(setup_().status(1), 0);
    assert_eq!(boot_().status(-1), 0);
    assert_eq!(finish_().status(7), 0);
}

#[test]
fn features_shows_the_whole_table() {
    let mut module = Module::new();
    let action = features_(&mut module);
    assert_eq!(action, Action::FeaturesArray(Features { bn_list: Some(0), bn_size: 1 }));
    assert_eq!(module.builtins().len(), 1);
    assert_eq!(action.status(0), 0);
    assert_eq!(action.status(1), 0);
}

#[test]
fn features_twice_gives_the_same_view() {
    let mut module = Module::new();
    let first = features_(&mut module);
    let table = module.builtins().clone();
    let second = features_(&mut module);
    assert_eq!(first, second);
    assert_eq!(module.builtins(), &table);
}

#[test]
fn enables_hands_the_feature_set_to_the_shell() {
    let mut module = Module::loaded();
    let action = enables_(&mut module);
    assert_eq!(action, Action::HandleFeatures(Features { bn_list: Some(0), bn_size: 1 }));
    assert_eq!(action.status(0), 0);
    assert_eq!(action.status(1), 1);
}

#[test]
fn enables_may_be_the_first_use() {
    let mut module = Module::new();
    let action = enables_(&mut module);
    assert_eq!(action, Action::HandleFeatures(Features { bn_list: Some(0), bn_size: 1 }));
    assert_eq!(module.builtins(), &vec![lastcmd_descriptor()]);
}

#[test]
fn cleanup_disables_what_was_enabled() {
    let mut module = Module::new();
    let shown = features_(&mut module);
    let enabled = enables_(&mut module);
    let cleaned = cleanup_(&mut module);
    let features = Features { bn_list: Some(0), bn_size: 1 };
    assert_eq!(shown, Action::FeaturesArray(features));
    assert_eq!(enabled, Action::HandleFeatures(features));
    assert_eq!(cleaned, Action::DisableFeatures(features));
    assert_eq!(features.bn_size as usize, module.builtins().len());
}

#[test]
fn cleanup_passes_the_status_of_the_shell_on() {
    let mut module = Module::loaded();
    let action = cleanup_(&mut module);
    assert_eq!(action.status(0), 0);
    assert_eq!(action.status(1), 1);
    assert_eq!(action.status(-3), -3);
}

#[test]
fn whole_life_of_the_module() {
    let mut module = Module::new();
    let statuses = [
        setup_().status(0),
        features_(&mut module).status(0),
        enables_(&mut module).status(0),
        boot_().status(0),
        cleanup_(&mut module).status(0),
        finish_().status(0),
    ];
    assert_eq!(statuses, [0, 0, 0, 0, 0, 0]);
}
