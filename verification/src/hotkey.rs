//! The hotkey, and what the user is told.

use vstd::prelude::*;

verus! {

/// A message in both languages.
#[derive(Debug)]
pub struct Notice {
    pub es: String,
    pub en: String,
}

/// What the hotkey leads to.
#[derive(Debug)]
pub enum HotkeyAction {
    /// Tell the user; nothing can be saved.
    Notify(Notice),
    /// Save a clip.
    Save,
}

/// The hotkey was pressed: it saves a clip while the recorder runs.
pub fn handle_hotkey(running: bool) -> (r: HotkeyAction)
    ensures
        running <==> r is Save,
        r matches HotkeyAction::Notify(n) ==> n.es@ == "Búfer detenido — pulsa Start para grabar"@
            && n.en@ == "Buffer stopped — press Start to record"@,
{
    if running {
        HotkeyAction::Save
    } else {
        HotkeyAction::Notify(
            Notice {
                es: "Búfer detenido — pulsa Start para grabar".to_owned(),
                en: "Buffer stopped — press Start to record".to_owned(),
            },
        )
    }
}

/// What the user is told after the hotkey's save: the name of the clip, or what
/// went wrong.
pub fn hotkey_saved(saved: &Result<String, String>) -> (r: Notice)
    ensures
        saved matches Ok(name) ==> r.es@ == "Clip guardado: "@ + name@ && r.en@ == "Clip saved: "@
            + name@,
        saved matches Err(e) ==> r.es@ == "Error al guardar: "@ + e@ && r.en@ == "Save failed: "@
            + e@,
{
    match saved {
        Ok(name) => {
            let mut es: String = "Clip guardado: ".to_owned();
            es.append(name.as_str());
            let mut en: String = "Clip saved: ".to_owned();
            en.append(name.as_str());
            Notice { es, en }
        },
        Err(e) => {
            let mut es: String = "Error al guardar: ".to_owned();
            es.append(e.as_str());
            let mut en: String = "Save failed: ".to_owned();
            en.append(e.as_str());
            Notice { es, en }
        },
    }
}

/// What the user is told after a changed setting restarted the recorder.
pub fn restart_notice() -> (r: Notice)
    ensures
        r.es@ == "Búfer reiniciado con la nueva configuración"@,
        r.en@ == "Buffer restarted with new configuration"@,
{
    Notice {
        es: "Búfer reiniciado con la nueva configuración".to_owned(),
        en: "Buffer restarted with new configuration".to_owned(),
    }
}

} // verus!
