//! Availability status of a probed service.
use vstd::prelude::*;

use crate::i18n::{t, translation, Lang};

verus! {

/// Availability of a probed service or server.
#[derive(Clone, Copy, Debug, PartialEq, Eq, Structural)]
pub enum ServiceStatus {
    Checking,
    Online,
    Offline,
    Error,
}

impl ServiceStatus {
    /// The translation key of this status's label.
    pub open spec fn label_key(self) -> Seq<char> {
        match self {
            ServiceStatus::Checking => "service_checking"@,
            ServiceStatus::Online => "service_online"@,
            ServiceStatus::Offline => "service_offline"@,
            ServiceStatus::Error => "service_error"@,
        }
    }

    /// The label of this status in `lang`.
    pub fn label_for(&self, lang: Lang) -> (r: &'static str)
        ensures
            r@ == translation(lang, self.label_key()),
    {
        let key: &'static str = match self {
            ServiceStatus::Checking => "service_checking",
            ServiceStatus::Online => "service_online",
            ServiceStatus::Offline => "service_offline",
            ServiceStatus::Error => "service_error",
        };
        t(lang, key)
    }

    /// The text colour class of this status.
    pub open spec fn spec_color_class(self) -> Seq<char> {
        match self {
            ServiceStatus::Checking => "text-yellow-400"@,
            ServiceStatus::Online => "text-emerald-400"@,
            ServiceStatus::Offline => "text-rose-400"@,
            ServiceStatus::Error => "text-orange-400"@,
        }
    }

    /// Tailwind text colour class for this status.
    pub fn color_class(&self) -> (r: &'static str)
        ensures
            r@ == self.spec_color_class(),
    {
        match self {
            ServiceStatus::Checking => "text-yellow-400",
            ServiceStatus::Online => "text-emerald-400",
            ServiceStatus::Offline => "text-rose-400",
            ServiceStatus::Error => "text-orange-400",
        }
    }
}

} // verus!
