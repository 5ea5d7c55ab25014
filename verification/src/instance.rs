//! A game instance: the settings it is launched with and the values the
//! surrounding process needs to start it and to reach it. Launching the
//! process and opening its transport happen outside the library; this
//! module computes and validates what they consume.

use vstd::prelude::*;
use crate::data::{PortSet, Rect};
use crate::errors::Error;
use crate::strconv::{dec_seq, u64_to_dec_string};

verus! {

/// How the executable is run.
#[derive(Debug, Copy, Clone, Eq, PartialEq, Structural)]
pub enum InstanceKind {
    /// Directly, as a native process.
    Native,
    /// Through Wine.
    Wine,
}

/// Settings used to create an instance.
#[derive(Debug)]
pub struct InstanceSettings {
    /// How the executable is run.
    pub kind: InstanceKind,
    /// Path of the executable, if known.
    pub exe: Option<String>,
    /// Working directory, if one is needed.
    pub pwd: Option<String>,
    /// Host and port the instance listens on.
    pub address: (String, u16),
    /// Window geometry of the instance.
    pub window_rect: Rect<u32>,
    /// Ports reserved for this instance's client connection.
    pub ports: PortSet,
}

/// One game instance, validated and ready to be started.
#[derive(Debug)]
pub struct Instance {
    /// How the executable is run.
    pub kind: InstanceKind,
    /// Path of the executable.
    pub exe: String,
    /// Working directory, if one is needed.
    pub pwd: Option<String>,
    /// Host and port the instance listens on.
    pub address: (String, u16),
    /// Window geometry of the instance.
    pub window_rect: Rect<u32>,
    /// Ports reserved for this instance's client connection.
    pub ports: PortSet,
}

impl Instance {
    /// Validates instance settings. The caller reports whether the
    /// configured executable is present on disk; settings without an
    /// executable, or with one that does not exist, are rejected.
    pub fn from_settings(settings: InstanceSettings, exe_exists: bool) -> (r: Result<
        Instance,
        Error,
    >)
        ensures
            match settings.exe {
                Option::None => r == Err::<Instance, Error>(Error::ExeNotSpecified),
                Option::Some(exe) => {
                    if exe_exists {
                        r matches Ok(inst) && inst.kind == settings.kind && inst.exe == exe
                            && inst.pwd == settings.pwd && inst.address == settings.address
                            && inst.window_rect == settings.window_rect && inst.ports
                            == settings.ports
                    } else {
                        r == Err::<Instance, Error>(Error::ExeDoesNotExist(exe))
                    }
                },
            },
    {
        match settings.exe {
            Option::None => Err(Error::ExeNotSpecified),
            Option::Some(exe) => {
                if exe_exists {
                    Ok(Instance {
                        kind: settings.kind,
                        exe,
                        pwd: settings.pwd,
                        address: settings.address,
                        window_rect: settings.window_rect,
                        ports: settings.ports,
                    })
                } else {
                    Err(Error::ExeDoesNotExist(exe))
                }
            },
        }
    }
}


impl Instance {
    /// The websocket endpoint of this instance.
    pub fn ws_url(&self) -> (r: String)
        ensures
            r@ == "ws://"@ + self.address.0@ + ":"@ + dec_seq(self.address.1 as nat) + "/sc2api"@,
    {
        let mut url = String::from_str("ws://");
        url.append(self.address.0.as_str());
        url.append(":");
        let port = u64_to_dec_string(self.address.1 as u64);
        url.append(port.as_str());
        url.append("/sc2api");
        proof {
            assert(url@ =~= "ws://"@ + self.address.0@ + ":"@ + dec_seq(self.address.1 as nat)
                + "/sc2api"@);
        }
        url
    }

    /// The command-line arguments the instance process is started with.
    pub fn launch_args(&self) -> (r: Vec<String>)
        ensures
            r@.len() == 14,
            r@[0]@ == "-listen"@,
            r@[1]@ == self.address.0@,
            r@[2]@ == "-port"@,
            r@[3]@ == dec_seq(self.address.1 as nat),
            r@[4]@ == "-displayMode"@,
            r@[5]@ == "0"@,
            r@[6]@ == "-windowx"@,
            r@[7]@ == dec_seq(self.window_rect.x as nat),
            r@[8]@ == "-windowy"@,
            r@[9]@ == dec_seq(self.window_rect.y as nat),
            r@[10]@ == "-windowWidth"@,
            r@[11]@ == dec_seq(self.window_rect.w as nat),
            r@[12]@ == "-windowHeight"@,
            r@[13]@ == dec_seq(self.window_rect.h as nat),
    {
        let mut args: Vec<String> = Vec::new();
        args.push(String::from_str("-listen"));
        args.push(self.address.0.clone());
        args.push(String::from_str("-port"));
        args.push(u64_to_dec_string(self.address.1 as u64));
        args.push(String::from_str("-displayMode"));
        args.push(String::from_str("0"));
        args.push(String::from_str("-windowx"));
        args.push(u64_to_dec_string(self.window_rect.x as u64));
        args.push(String::from_str("-windowy"));
        args.push(u64_to_dec_string(self.window_rect.y as u64));
        args.push(String::from_str("-windowWidth"));
        args.push(u64_to_dec_string(self.window_rect.w as u64));
        args.push(String::from_str("-windowHeight"));
        args.push(u64_to_dec_string(self.window_rect.h as u64));
        args
    }
}

} // verus!
