//! Which browser sessions to open: one per profile directory for Chrome,
//! one per driver port for Firefox.
use vstd::prelude::*;
use crate::text::{decimal, decimal_string};

verus! {

/// Opens the Chrome sessions, all on one driver port.
pub struct ChromeSessionInitializer;

/// Opens the Firefox sessions, one driver port each, all from one profile.
pub struct GeckoSessionInitializer;

/// A session to open: the driver port, written out, and the profile it uses.
pub open spec fn session_plan_view(p: (String, String)) -> (Seq<char>, Seq<char>) {
    (p.0@, p.1@)
}

impl ChromeSessionInitializer {
    /// One session per profile directory, each on `port`.
    pub fn session_plan(port: u16, user_dirs: &Vec<String>) -> (res: Vec<(String, String)>)
        ensures
            res@.len() == user_dirs@.len(),
            forall|i: int|
                0 <= i < res@.len() ==> session_plan_view(#[trigger] res@[i]) == (decimal(port as nat), user_dirs@[i]@),
    {
        let port_text = decimal_string(port as u64);
        let mut out: Vec<(String, String)> = Vec::new();
        let mut i: usize = 0;
        while i < user_dirs.len()
            invariant
                i <= user_dirs@.len(),
                port_text@ == decimal(port as nat),
                out@.len() == i,
                forall|j: int|
                    0 <= j < i ==> session_plan_view(#[trigger] out@[j]) == (decimal(port as nat), user_dirs@[j]@),
            decreases user_dirs.len() - i,
        {
            out.push((port_text.clone(), user_dirs[i].clone()));
            i = i + 1;
        }
        out
    }
}

impl GeckoSessionInitializer {
    /// One session per driver port, each with the encoded profile.
    pub fn session_plan(encoded_profile: &str, ports: &Vec<u16>) -> (res: Vec<(String, String)>)
        ensures
            res@.len() == ports@.len(),
            forall|i: int|
                0 <= i < res@.len() ==> session_plan_view(#[trigger] res@[i]) == (
                    decimal(ports@[i] as nat),
                    encoded_profile@,
                ),
    {
        let mut out: Vec<(String, String)> = Vec::new();
        let mut i: usize = 0;
        while i < ports.len()
            invariant
                i <= ports@.len(),
                out@.len() == i,
                forall|j: int|
                    0 <= j < i ==> session_plan_view(#[trigger] out@[j]) == (
                        decimal(ports@[j] as nat),
                        encoded_profile@,
                    ),
            decreases ports.len() - i,
        {
            let port_text = decimal_string(ports[i] as u64);
            out.push((port_text, encoded_profile.to_owned()));
            i = i + 1;
        }
        out
    }
}

} // verus!
