//! The login record and the session that is derived from it.

use crate::helper::Helper;
use crate::helper::spec_gtk;
use vstd::prelude::*;
use vstd::string::StringExecFns;

verus! {

/// One ticket of a login record.
#[derive(Debug, Clone)]
pub struct Ticket {
    pub name: String,
    pub domain: Option<String>,
    pub ticket: String,
    pub expire_at: Option<i64>,
    pub appid: Option<String>,
    pub openid: Option<String>,
    pub refresh_token: Option<String>,
}

/// A login record.
#[derive(Debug)]
pub struct Cookie {
    pub result: i32,
    pub msg: String,
    pub req_id: String,
    pub account: String,
    pub nickname: String,
    pub avatar_url: String,
    pub tickets: Vec<Ticket>,
}

/// What a session needs of a login record.
#[derive(Debug, Clone)]
pub struct LoginInfo {
    pub uin: String,
    pub nickname: String,
    pub avatar: String,
    pub p_skey: String,
    pub g_tk: i64,
    pub expire_at: i64,
    pub cookie: String,
}

/// Why a login record gives no session.
#[derive(Debug, Clone, Copy, PartialEq, Eq, Structural)]
pub enum CookieError {
    /// The record holds no ticket for the session domain.
    TicketNotFound,
}

/// The domain whose ticket opens a session.
pub open spec fn spec_session_domain() -> Seq<char> {
    "myqq.qq.com"@
}

/// Whether `ticket` is one for the session domain.
pub open spec fn spec_is_session_ticket(ticket: Ticket) -> bool {
    ticket.domain matches Some(domain) && domain@ == spec_session_domain()
}

/// The position of the first ticket for the session domain, counted from
/// `from` on.
pub open spec fn spec_session_ticket_from(tickets: Seq<Ticket>, from: int) -> Option<int>
    decreases tickets.len() - from,
{
    if from < 0 || from >= tickets.len() {
        None
    } else if spec_is_session_ticket(tickets[from]) {
        Some(from)
    } else {
        spec_session_ticket_from(tickets, from + 1)
    }
}

/// The position of the first ticket for the session domain.
pub open spec fn spec_session_ticket(tickets: Seq<Ticket>) -> Option<int> {
    spec_session_ticket_from(tickets, 0)
}

/// The cookie header of a session: the account twice, then the key.
pub open spec fn spec_cookie_header(account: Seq<char>, key: Seq<char>) -> Seq<char> {
    "uin="@ + account + "; p_uin="@ + account + "; p_skey="@ + key + ";"@
}

/// Whether a record with these tickets is out of date at the time `now`,
/// in seconds since the epoch: it is unless its session ticket has an
/// expiry that lies after `now`.
pub open spec fn spec_is_expired(tickets: Seq<Ticket>, now: i64) -> bool {
    match spec_session_ticket(tickets) {
        Some(at) => match tickets[at].expire_at {
            Some(expire_at) => now >= expire_at,
            None => true,
        },
        None => true,
    }
}

impl Cookie {
    /// The first ticket for the session domain, if there is one.
    fn session_ticket(&self) -> (r: Option<usize>)
        ensures
            match r {
                Some(at) => spec_session_ticket(self.tickets@) == Some(at as int) && at
                    < self.tickets.len(),
                None => spec_session_ticket(self.tickets@) is None,
            },
    {
        let wanted = String::from_str("myqq.qq.com");
        let mut i: usize = 0;
        while i < self.tickets.len()
            invariant
                i <= self.tickets.len(),
                wanted@ == spec_session_domain(),
                spec_session_ticket(self.tickets@) == spec_session_ticket_from(
                    self.tickets@,
                    i as int,
                ),
            decreases self.tickets.len() - i,
        {
            let found = match &self.tickets[i].domain {
                Some(domain) => *domain == wanted,
                None => false,
            };
            if found {
                return Some(i);
            }
            i += 1;
        }
        None
    }

    /// The session that the record opens: account, name and picture as
    /// they are, the key of the first ticket for the session domain, the
    /// token hash of that key, the expiry of the ticket (zero where it has
    /// none) and the cookie header.
    pub fn to_login_info(&self) -> (r: Result<LoginInfo, CookieError>)
        ensures
            match r {
                Ok(info) => {
                    &&& spec_session_ticket(self.tickets@) matches Some(at)
                    &&& info.uin@ == self.account@
                    &&& info.nickname@ == self.nickname@
                    &&& info.avatar@ == self.avatar_url@
                    &&& info.p_skey@ == self.tickets[at].ticket@
                    &&& info.g_tk == spec_gtk(self.tickets[at].ticket@)
                    &&& info.expire_at == match self.tickets[at].expire_at {
                        Some(expire_at) => expire_at,
                        None => 0,
                    }
                    &&& info.cookie@ == spec_cookie_header(self.account@, self.tickets[at].ticket@)
                },
                Err(e) => spec_session_ticket(self.tickets@) is None && e
                    == CookieError::TicketNotFound,
            },
    {
        let at = match self.session_ticket() {
            Some(at) => at,
            None => {
                return Err(CookieError::TicketNotFound);
            },
        };
        let ticket = &self.tickets[at];
        let g_tk = Helper::gtk(ticket.ticket.as_str());
        let mut cookie_str = String::from_str("uin=");
        cookie_str.append(self.account.as_str());
        cookie_str.append("; p_uin=");
        cookie_str.append(self.account.as_str());
        cookie_str.append("; p_skey=");
        cookie_str.append(ticket.ticket.as_str());
        cookie_str.append(";");
        Ok(
            LoginInfo {
                uin: self.account.clone(),
                nickname: self.nickname.clone(),
                avatar: self.avatar_url.clone(),
                p_skey: ticket.ticket.clone(),
                g_tk,
                expire_at: match ticket.expire_at {
                    Some(expire_at) => expire_at,
                    None => 0,
                },
                cookie: cookie_str,
            },
        )
    }

    /// Whether the record is out of date at the time `now`, in seconds
    /// since the epoch.
    pub fn is_expired_at(&self, now: i64) -> (r: bool)
        ensures
            r == spec_is_expired(self.tickets@, now),
    {
        match self.session_ticket() {
            Some(at) => match self.tickets[at].expire_at {
                Some(expire_at) => now >= expire_at,
                None => true,
            },
            None => true,
        }
    }

    /// Whether the record is out of date by the clock of this machine: the
    /// answer is that of [`Cookie::is_expired_at`] for the time that the
    /// clock gave.
    pub fn is_expired(&self) -> (r: bool)
        ensures
            exists|now: i64| r == spec_is_expired(self.tickets@, now),
    {
        let now = current_timestamp();
        self.is_expired_at(now)
    }
}

/// Reads the clock of this machine with `std::time::SystemTime::now`, has
/// `chrono` convert the reading to a `DateTime<Utc>` and takes the
/// `timestamp` of that: the seconds since the epoch, negative where the
/// clock stands before it.
///
/// Trusted, and nothing is claimed of the number: it is what the clock
/// says. The conversion is defined for every time within the 262,000 years
/// on either side of the epoch that `chrono` represents.
#[verifier::external_body]
fn current_timestamp() -> (now: i64) {
    chrono::DateTime::<chrono::Utc>::from(std::time::SystemTime::now()).timestamp()
}

} // verus!
