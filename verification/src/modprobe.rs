//! Loading, unloading and reloading kernel modules with `modprobe`.
use crate::text::{chars_of, lemma_string_views_push, push_str, string_of, string_views};
use vstd::prelude::*;

verus! {

/// The arguments of `modprobe` that unload `module`.
pub fn unload(module: &str) -> (args: Vec<String>)
    ensures
        string_views(args@) == seq!["-r"@, module@],
{
    let mut args: Vec<String> = Vec::new();
    args.push(string_of(&chars_of("-r")));
    args.push(string_of(&chars_of(module)));
    assert(string_views(args@) =~= seq!["-r"@, module@]);
    args
}

/// The arguments of `modprobe` that load `module` with `options`.
pub fn load(module: &str, options: &Vec<&str>) -> (args: Vec<String>)
    ensures
        string_views(args@) == seq![module@] + options@.map_values(|o: &str| o@),
{
    let mut args: Vec<String> = Vec::new();
    args.push(string_of(&chars_of(module)));
    let mut i: usize = 0;
    while i < options.len()
        invariant
            i <= options@.len(),
            string_views(args@) == seq![module@] + options@.take(i as int).map_values(|o: &str| o@),
        decreases options@.len() - i,
    {
        let ghost old_args = args@;
        let s = string_of(&chars_of(options[i]));
        args.push(s);
        proof {
            lemma_string_views_push(old_args, s);
            assert(options@.take(i + 1).map_values(|o: &str| o@) =~= options@.take(i as int).map_values(
                |o: &str| o@,
            ).push(options@[i as int]@));
        }
        i = i + 1;
        assert(string_views(args@) =~= seq![module@] + options@.take(i as int).map_values(|o: &str| o@));
    }
    assert(options@.take(i as int) =~= options@);
    args
}

/// Which run of `modprobe` a reload is at.
#[derive(Clone, Copy, Debug, PartialEq, Eq, Structural)]
pub enum ReloadStage {
    Unload,
    Load,
}

/// What reloading a module does next.
#[derive(Debug)]
pub enum ReloadAction {
    /// Run `modprobe` with these arguments, at this stage, and report how it went.
    Run(ReloadStage, Vec<String>),
    /// The reload is over: `Ok` when both runs succeeded, else the error that stopped it.
    Finish(Result<(), String>),
}

/// The first step of reloading `module`: unloading it.
pub fn reload(module: &str) -> (a: ReloadAction)
    ensures
        a matches ReloadAction::Run(ReloadStage::Unload, args) && string_views(args@) == seq!["-r"@, module@],
{
    ReloadAction::Run(ReloadStage::Unload, unload(module))
}

/// The message of a run of `modprobe` that exited unsuccessfully.
pub open spec fn failure_message(stage: ReloadStage, module: Seq<char>) -> Seq<char> {
    match stage {
        ReloadStage::Unload => "failed to unload "@ + module,
        ReloadStage::Load => "failed to load "@ + module,
    }
}

/// The step after a run of `modprobe` at `stage` of reloading `module` with `options`
/// ended with `outcome`: whether `modprobe` exited successfully, or why it could not be
/// run. The module is loaded only after it was unloaded; an error that stops the reload
/// is given back unchanged, and an unsuccessful exit is reported by stage and module.
pub fn reload_step(stage: ReloadStage, module: &str, options: &Vec<&str>, outcome: Result<bool, String>) -> (a: ReloadAction)
    ensures
        match outcome {
            Err(why) => a matches ReloadAction::Finish(Err(e)) && e@ == why@,
            Ok(false) => a matches ReloadAction::Finish(Err(e)) && e@ == failure_message(stage, module@),
            Ok(true) => match stage {
                ReloadStage::Unload => a matches ReloadAction::Run(ReloadStage::Load, args)
                    && string_views(args@) == seq![module@] + options@.map_values(|o: &str| o@),
                ReloadStage::Load => a matches ReloadAction::Finish(Ok(())),
            },
        },
{
    match outcome {
        Err(why) => ReloadAction::Finish(Err(why)),
        Ok(false) => {
            let mut m = match stage {
                ReloadStage::Unload => chars_of("failed to unload "),
                ReloadStage::Load => chars_of("failed to load "),
            };
            push_str(&mut m, module);
            ReloadAction::Finish(Err(string_of(&m)))
        },
        Ok(true) => match stage {
            ReloadStage::Unload => ReloadAction::Run(ReloadStage::Load, load(module, options)),
            ReloadStage::Load => ReloadAction::Finish(Ok(())),
        },
    }
}

} // verus!
