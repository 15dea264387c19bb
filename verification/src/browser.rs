//! The scan coordinator and its consumer-facing state: at most one scan in
//! flight, a visible result set that a fresh scan clears and a finished
//! batch appends to, and the localized label table.

use vstd::prelude::*;
use vstd::string::StringExecFns;
use crate::filter::CriteriaV;
use crate::filter::FilterCriteria;
use crate::record::RecordV;
use crate::record::ServerRecord;
use crate::scan::ScanBatch;
use crate::text::str_eq;

verus! {

/// The display language of the labels [`SquadApp::tr`] hands out.
#[derive(Clone, Copy, Debug, PartialEq, Eq, Structural)]
pub enum Language {
    En,
    Ua,
}

/// What a fetch worker is handed when a scan request is accepted: the
/// criteria snapshot taken at request time and the continuation token
/// (empty = fresh scan).
pub struct ScanJob {
    pub criteria: FilterCriteria,
    pub continuation: String,
}

/// The coordinator: owns the filter settings, the visible result set and
/// the scan lifecycle. The presentation loop edits `criteria` and
/// `language` directly; everything else moves only through the methods.
pub struct SquadApp {
    pub criteria: FilterCriteria,
    pub language: Language,
    servers: Vec<ServerRecord>,
    next_url: String,
    is_loading: bool,
    first_load_done: bool,
}

/// Mathematical model of the coordinator state.
#[verifier::ext_equal]
pub struct AppV {
    pub criteria: CriteriaV,
    pub language: Language,
    pub servers: Seq<RecordV>,
    pub next_url: Seq<char>,
    pub is_loading: bool,
    pub first_load_done: bool,
}

impl View for SquadApp {
    type V = AppV;

    closed spec fn view(&self) -> AppV {
        AppV {
            criteria: self.criteria@,
            language: self.language,
            servers: self.servers.deep_view(),
            next_url: self.next_url@,
            is_loading: self.is_loading,
            first_load_done: self.first_load_done,
        }
    }
}

/// The state the coordinator starts in: bounds 0..=100, four banned
/// countries, no filters, English labels, nothing visible, idle.
pub open spec fn default_app() -> AppV {
    AppV {
        criteria: CriteriaV {
            min_players: 0,
            max_players: 100,
            banned: set!["RU"@, "BY"@, "CN"@, "BR"@],
            filter_name: Seq::empty(),
            filter_map: Seq::empty(),
            filter_mode: Seq::empty(),
        },
        language: Language::En,
        servers: Seq::empty(),
        next_url: Seq::empty(),
        is_loading: false,
        first_load_done: false,
    }
}

impl Default for SquadApp {
    fn default() -> (r: Self)
        ensures
            r@ == default_app(),
    {
        let mut banned: Vec<String> = Vec::new();
        banned.push(String::from_str("RU"));
        banned.push(String::from_str("BY"));
        banned.push(String::from_str("CN"));
        banned.push(String::from_str("BR"));
        proof {
            let dv = banned.deep_view();
            assert(dv =~= seq!["RU"@, "BY"@, "CN"@, "BR"@]);
            assert forall|x: Seq<char>| dv.to_set().contains(x) implies set![
                "RU"@,
                "BY"@,
                "CN"@,
                "BR"@,
            ].contains(x) by {
                let i = choose|i: int| 0 <= i < dv.len() && dv[i] == x;
            }
            assert(dv.contains("RU"@)) by {
                assert(dv[0] == "RU"@);
            }
            assert(dv.contains("BY"@)) by {
                assert(dv[1] == "BY"@);
            }
            assert(dv.contains("CN"@)) by {
                assert(dv[2] == "CN"@);
            }
            assert(dv.contains("BR"@)) by {
                assert(dv[3] == "BR"@);
            }
            assert(dv.to_set() =~= set!["RU"@, "BY"@, "CN"@, "BR"@]);
        }
        let r = SquadApp {
            criteria: FilterCriteria {
                min_players: 0,
                max_players: 100,
                banned_countries: banned,
                filter_name: String::new(),
                filter_map: String::new(),
                filter_mode: String::new(),
            },
            language: Language::En,
            servers: Vec::new(),
            next_url: String::new(),
            is_loading: false,
            first_load_done: false,
        };
        proof {
            assert(r@ =~= default_app());
        }
        r
    }
}

impl SquadApp {
    /// Request a scan. While a scan is running the request is dropped: no
    /// second worker is handed a job and nothing in the state changes.
    /// Otherwise the coordinator snapshots the criteria, clears the
    /// visible results on a fresh scan (no continuation link given),
    /// transitions to running, and hands back the job for a worker.
    pub fn run_scan(&mut self, next_page_url: Option<String>) -> (job: Option<ScanJob>)
        ensures
            old(self)@.is_loading ==> job is None && final(self)@ == old(self)@,
            !old(self)@.is_loading ==> {
                &&& job matches Some(j) && j.criteria@ == old(self)@.criteria && j.continuation@
                    == (match next_page_url {
                    Some(u) => u@,
                    None => Seq::<char>::empty(),
                })
                &&& final(self)@.is_loading
                &&& (next_page_url is None ==> final(self)@.servers == Seq::<RecordV>::empty())
                &&& (next_page_url is Some ==> final(self)@.servers == old(self)@.servers)
                &&& final(self)@.criteria == old(self)@.criteria
                &&& final(self)@.language == old(self)@.language
                &&& final(self)@.next_url == old(self)@.next_url
                &&& final(self)@.first_load_done == old(self)@.first_load_done
            },
    {
        if self.is_loading {
            return None;
        }
        self.is_loading = true;
        let continuation = match next_page_url {
            Some(u) => u,
            None => {
                self.servers = Vec::new();
                proof {
                    assert(self.servers.deep_view() =~= Seq::<RecordV>::empty());
                }
                String::new()
            },
        };
        let snapshot = self.criteria.clone();
        Some(ScanJob { criteria: snapshot, continuation })
    }

    /// Take delivery of a finished batch: append its records to the
    /// visible results in arrival order, store its continuation token as
    /// the new load-more token, and return to idle. Returns how many
    /// records were appended.
    pub fn receive_batch(&mut self, batch: ScanBatch) -> (n: usize)
        ensures
            final(self)@.servers == old(self)@.servers + batch@.servers,
            final(self)@.next_url == batch@.next_url,
            !final(self)@.is_loading,
            final(self)@.first_load_done,
            final(self)@.criteria == old(self)@.criteria,
            final(self)@.language == old(self)@.language,
            n == batch@.servers.len(),
    {
        let ghost before = self.servers.deep_view();
        let ScanBatch { servers: mut incoming, next_url } = batch;
        let n = incoming.len();
        self.servers.append(&mut incoming);
        self.next_url = next_url;
        self.is_loading = false;
        self.first_load_done = true;
        proof {
            assert(self.servers.deep_view() =~= before + batch@.servers);
        }
        n
    }

    /// A scan is in flight.
    pub fn is_running(&self) -> (r: bool)
        ensures
            r == self@.is_loading,
    {
        self.is_loading
    }

    /// A continuation token is stored: the listing has more pages.
    pub fn has_more(&self) -> (r: bool)
        ensures
            r == (self@.next_url.len() > 0),
    {
        !self.next_url.as_str().is_empty()
    }

    /// At least one scan has delivered its batch.
    pub fn has_loaded_once(&self) -> (r: bool)
        ensures
            r == self@.first_load_done,
    {
        self.first_load_done
    }

    /// The stored continuation token.
    pub fn continuation(&self) -> (r: &String)
        ensures
            r@ == self@.next_url,
    {
        &self.next_url
    }

    /// The visible result set, in arrival order.
    pub fn servers(&self) -> (r: &Vec<ServerRecord>)
        ensures
            r.deep_view() == self@.servers,
    {
        &self.servers
    }

    /// How many records are visible.
    pub fn server_count(&self) -> (n: usize)
        ensures
            n == self@.servers.len(),
    {
        self.servers.len()
    }

    /// The consumer-side trigger for loading more results: the viewed
    /// index is within the last five visible records, no scan is running,
    /// and a continuation token is stored.
    pub fn should_load_more(&self, index: usize) -> (b: bool)
        ensures
            b == {
                &&& index + 5 >= self@.servers.len()
                &&& !self@.is_loading
                &&& self@.next_url.len() > 0
            },
    {
        let total = self.servers.len();
        let threshold = if total >= 5 {
            total - 5
        } else {
            0
        };
        index >= threshold && !self.is_loading && !self.next_url.as_str().is_empty()
    }
}

/// The label table: what [`SquadApp::tr`] yields for each key and
/// language; an unknown key is handed back unchanged.
pub open spec fn translation(lang: Language, key: Seq<char>) -> Seq<char> {
    if key == "app_title"@ {
        if lang is En {
            "Squad Browser"@
        } else {
            "–ü–æ—à—É–∫ –°–µ—Ä–≤–µ—Ä—ñ–≤ Squad"@
        }
    } else if key == "settings"@ {
        if lang is En {
            "Settings"@
        } else {
            "–ù–∞–ª–∞—à—Ç—É–≤–∞–Ω–Ω—è"@
        }
    } else if key == "start"@ {
        if lang is En {
            "START SCAN"@
        } else {
            "–ü–û–ß–ê–¢–ò –ü–û–®–£–ö"@
        }
    } else if key == "refresh"@ {
        if lang is En {
            "REFRESH"@
        } else {
            "–û–ù–û–í–ò–¢–ò"@
        }
    } else if key == "found"@ {
        if lang is En {
            "Servers:"@
        } else {
            "–°–µ—Ä–≤–µ—Ä—ñ–≤:"@
        }
    } else if key == "no_servers"@ {
        if lang is En {
            "No servers found."@
        } else {
            "–°–µ—Ä–≤–µ—Ä—ñ–≤ –Ω–µ –∑–Ω–∞–π–¥–µ–Ω–æ."@
        }
    } else if key == "conf_title"@ {
        if lang is En {
            "Configuration"@
        } else {
            "–ö–æ–Ω—Ñ—ñ–≥—É—Ä–∞—Ü—ñ—è"@
        }
    } else if key == "min_p"@ {
        if lang is En {
            "Min Players:"@
        } else {
            "–ú—ñ–Ω. –ì—Ä–∞–≤—Ü—ñ–≤:"@
        }
    } else if key == "max_p"@ {
        if lang is En {
            "Max Players:"@
        } else {
            "–ú–∞–∫—Å. –ì—Ä–∞–≤—Ü—ñ–≤:"@
        }
    } else if key == "search_name"@ {
        if lang is En {
            "Server Name:"@
        } else {
            "–ù–∞–∑–≤–∞ –°–µ—Ä–≤–µ—Ä–∞:"@
        }
    } else if key == "map"@ {
        if lang is En {
            "Map Name:"@
        } else {
            "–ù–∞–∑–≤–∞ –ö–∞—Ä—Ç–∏:"@
        }
    } else if key == "mode"@ {
        if lang is En {
            "Game Mode:"@
        } else {
            "–†–µ–∂–∏–º –ì—Ä–∏:"@
        }
    } else if key == "close"@ {
        if lang is En {
            "Close & Save"@
        } else {
            "–ó–±–µ—Ä–µ–≥—Ç–∏ —ñ –ó–∞–∫—Ä–∏—Ç–∏"@
        }
    } else if key == "lang"@ {
        if lang is En {
            "Language:"@
        } else {
            "–ú–æ–≤–∞:"@
        }
    } else if key == "bl_title"@ {
        if lang is En {
            "üö´ Disabled Countries"@
        } else {
            "üö´ –ó–∞–±–ª–æ–∫–æ–≤–∞–Ω—ñ –ö—Ä–∞—ó–Ω–∏"@
        }
    } else if key == "scanning"@ {
        if lang is En {
            "Scanning..."@
        } else {
            "–ü–æ—à—É–∫..."@
        }
    } else if key == "loading_more"@ {
        if lang is En {
            "Loading more..."@
        } else {
            "–ü—ñ–¥–≤–∞–Ω—Ç–∞–∂—É—é —â–µ..."@
        }
    } else if key == "ready"@ {
        if lang is En {
            "Ready"@
        } else {
            "–ì–æ—Ç–æ–≤–∏–π"@
        }
    } else {
        key
    }
}

impl SquadApp {
    /// The display label for a key in the current language.
    pub fn tr(&self, key: &str) -> (r: String)
        ensures
            r@ == translation(self@.language, key@),
    {
        let en = match self.language {
            Language::En => true,
            Language::Ua => false,
        };
        if str_eq(key, "app_title") {
            if en {
                String::from_str("Squad Browser")
            } else {
                String::from_str("–ü–æ—à—É–∫ –°–µ—Ä–≤–µ—Ä—ñ–≤ Squad")
            }
        } else if str_eq(key, "settings") {
            if en {
                String::from_str("Settings")
            } else {
                String::from_str("–ù–∞–ª–∞—à—Ç—É–≤–∞–Ω–Ω—è")
            }
        } else if str_eq(key, "start") {
            if en {
                String::from_str("START SCAN")
            } else {
                String::from_str("–ü–û–ß–ê–¢–ò –ü–û–®–£–ö")
            }
        } else if str_eq(key, "refresh") {
            if en {
                String::from_str("REFRESH")
            } else {
                String::from_str("–û–ù–û–í–ò–¢–ò")
            }
        } else if str_eq(key, "found") {
            if en {
                String::from_str("Servers:")
            } else {
                String::from_str("–°–µ—Ä–≤–µ—Ä—ñ–≤:")
            }
        } else if str_eq(key, "no_servers") {
            if en {
                String::from_str("No servers found.")
            } else {
                String::from_str("–°–µ—Ä–≤–µ—Ä—ñ–≤ –Ω–µ –∑–Ω–∞–π–¥–µ–Ω–æ.")
            }
        } else if str_eq(key, "conf_title") {
            if en {
                String::from_str("Configuration")
            } else {
                String::from_str("–ö–æ–Ω—Ñ—ñ–≥—É—Ä–∞—Ü—ñ—è")
            }
        } else if str_eq(key, "min_p") {
            if en {
                String::from_str("Min Players:")
            } else {
                String::from_str("–ú—ñ–Ω. –ì—Ä–∞–≤—Ü—ñ–≤:")
            }
        } else if str_eq(key, "max_p") {
            if en {
                String::from_str("Max Players:")
            } else {
                String::from_str("–ú–∞–∫—Å. –ì—Ä–∞–≤—Ü—ñ–≤:")
            }
        } else if str_eq(key, "search_name") {
            if en {
                String::from_str("Server Name:")
            } else {
                String::from_str("–ù–∞–∑–≤–∞ –°–µ—Ä–≤–µ—Ä–∞:")
            }
        } else if str_eq(key, "map") {
            if en {
                String::from_str("Map Name:")
            } else {
                String::from_str("–ù–∞–∑–≤–∞ –ö–∞—Ä—Ç–∏:")
            }
        } else if str_eq(key, "mode") {
            if en {
                String::from_str("Game Mode:")
            } else {
                String::from_str("–†–µ–∂–∏–º –ì—Ä–∏:")
            }
        } else if str_eq(key, "close") {
            if en {
                String::from_str("Close & Save")
            } else {
                String::from_str("–ó–±–µ—Ä–µ–≥—Ç–∏ —ñ –ó–∞–∫—Ä–∏—Ç–∏")
            }
        } else if str_eq(key, "lang") {
            if en {
                String::from_str("Language:")
            } else {
                String::from_str("–ú–æ–≤–∞:")
            }
        } else if str_eq(key, "bl_title") {
            if en {
                String::from_str("üö´ Disabled Countries")
            } else {
                String::from_str("üö´ –ó–∞–±–ª–æ–∫–æ–≤–∞–Ω—ñ –ö—Ä–∞—ó–Ω–∏")
            }
        } else if str_eq(key, "scanning") {
            if en {
                String::from_str("Scanning...")
            } else {
                String::from_str("–ü–æ—à—É–∫...")
            }
        } else if str_eq(key, "loading_more") {
            if en {
                String::from_str("Loading more...")
            } else {
                String::from_str("–ü—ñ–¥–≤–∞–Ω—Ç–∞–∂—É—é —â–µ...")
            }
        } else if str_eq(key, "ready") {
            if en {
                String::from_str("Ready")
            } else {
                String::from_str("–ì–æ—Ç–æ–≤–∏–π")
            }
        } else {
            String::from_str(key)
        }
    }
}

} // verus!
