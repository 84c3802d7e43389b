//! The end of the mail data: hand the mail over for delivery.
use vstd::prelude::*;
use vstd::string::*;
use crate::command::command_handler::{follows_step, line, reply, respond_nothing, respond_silently, CommandHandler, HandlerOutcome, OutcomeView};
use crate::command::smtp_command::{CommandView, SmtpCommand};
use crate::io::smtp_state::SmtpState;
use crate::io::transaction::{strings_view, SmtpTransaction, TransactionView};
use crate::text::{split_once, split_once_char, str_equal};

verus! {

/// Takes the mail data once it is complete.
pub struct DataEndHandler;

/// The users of `local` among the recipient mailboxes `boxes`, in order: the part before
/// the first `@` of each mailbox that has one. `None` where a mailbox belongs to another
/// domain, which this server does not deliver to.
pub open spec fn local_users(boxes: Seq<Seq<char>>, local: Seq<char>) -> Option<Seq<Seq<char>>>
    decreases boxes.len(),
{
    if boxes.len() == 0 {
        Some(Seq::empty())
    } else {
        match local_users(boxes.drop_last(), local) {
            None => None,
            Some(users) => match split_once(boxes.last(), '@') {
                None => Some(users),
                Some((user, domain)) => if domain == local {
                    Some(users.push(user))
                } else {
                    None
                },
            },
        }
    }
}

/// The mail data closes the mail transaction: the session returns to the greeted state
/// without sender or recipients, the body is to be stored for each local recipient, and
/// the reply is 250. Any other command gets no answer. `None` where no recipient list is
/// open or a recipient is not local.
pub open spec fn data_end_step(t: TransactionView, c: CommandView, local: Seq<char>) -> Option<(TransactionView, OutcomeView)> {
    match c {
        CommandView::DataEnd(body) => match t.to {
            None => None,
            Some(boxes) => match local_users(boxes, local) {
                None => None,
                Some(users) => Some((
                    TransactionView { state: SmtpState::Greeted, from: None, to: None, ..t },
                    OutcomeView::Deliver { users, body, response: line(250, "OK: queued"@) },
                )),
            },
        },
        _ => Some((t, respond_nothing())),
    }
}

/// Once a prefix of the mailboxes holds a non-local one, so does the whole list.
proof fn lemma_local_users_none(boxes: Seq<Seq<char>>, local: Seq<char>, k: int)
    requires
        0 <= k <= boxes.len(),
        local_users(boxes.take(k), local) is None,
    ensures
        local_users(boxes, local) is None,
    decreases boxes.len() - k,
{
    if k == boxes.len() {
        assert(boxes.take(k) =~= boxes);
    } else {
        assert(boxes.take(k + 1).drop_last() =~= boxes.take(k));
        lemma_local_users_none(boxes, local, k + 1);
    }
}

/// The local users among `mailboxes` (see `local_users`).
pub fn local_recipients(mailboxes: &Vec<String>, local_domain: &str) -> (r: Option<Vec<String>>)
    ensures
        match r {
            Some(users) => local_users(strings_view(mailboxes@), local_domain@) == Some(
                strings_view(users@),
            ),
            None => local_users(strings_view(mailboxes@), local_domain@) is None,
        },
{
    let n = mailboxes.len();
    let mut users: Vec<String> = Vec::new();
    let mut i: usize = 0;
    assert(strings_view(mailboxes@).take(0) =~= Seq::<Seq<char>>::empty());
    assert(strings_view(users@) =~= Seq::<Seq<char>>::empty());
    while i < n
        invariant
            n == mailboxes@.len(),
            i <= n,
            local_users(strings_view(mailboxes@).take(i as int), local_domain@) == Some(
                strings_view(users@),
            ),
        decreases n - i,
    {
        let ghost boxes = strings_view(mailboxes@);
        assert(boxes.take(i + 1).drop_last() =~= boxes.take(i as int));
        assert(boxes.take(i + 1).last() == mailboxes@[i as int]@);
        match split_once_char(mailboxes[i].as_str(), '@') {
            Some((user, domain)) => {
                if !str_equal(domain, local_domain) {
                    proof {
                        lemma_local_users_none(boxes, local_domain@, i + 1);
                    }
                    return None;
                }
                let ghost before = strings_view(users@);
                users.push(String::from_str(user));
                assert(strings_view(users@) =~= before.push(user@));
            },
            None => {},
        }
        i = i + 1;
    }
    assert(strings_view(mailboxes@).take(n as int) =~= strings_view(mailboxes@));
    Some(users)
}

impl CommandHandler for DataEndHandler {
    fn handle(&self, txn: &mut SmtpTransaction, command: SmtpCommand, local_domain: &str) -> (r: Option<HandlerOutcome>)
        ensures
            follows_step(old(txn)@, final(txn)@, r, data_end_step(old(txn)@, command@, local_domain@)),
    {
        if let SmtpCommand::DataEnd(body) = command {
            let users = match &txn.to {
                Some(mailboxes) => match local_recipients(mailboxes, local_domain) {
                    Some(users) => users,
                    None => {
                        return None;
                    },
                },
                None => {
                    return None;
                },
            };
            txn.state = SmtpState::Greeted;
            txn.from = None;
            txn.to = None;
            Some(HandlerOutcome::Deliver { users, body, response: reply(250, "OK: queued") })
        } else {
            Some(respond_silently())
        }
    }
}

} // verus!
