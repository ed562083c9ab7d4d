//! The email delivery gateway as the verified core sees it: a transport with
//! a single `send` operation and no retry. Every delivery attempt is
//! recorded; a send fails exactly for the recipients the gateway was set up
//! to fail for, which is how tests and proofs model an unreliable provider.
//! The process boundary that actually hands mail to a provider lives outside
//! the verified core and is driven by the same contracts.

use vstd::prelude::*;
use crate::text::str_eq;

verus! {

/// The mathematical value of one outbound email.
pub struct OutboundEmailView {
    pub to: Seq<char>,
    pub subject: Seq<char>,
    pub html_content: Seq<char>,
    pub text_content: Seq<char>,
}

/// One email handed to the delivery gateway.
pub struct OutboundEmail {
    pub to: String,
    pub subject: String,
    pub html_content: String,
    pub text_content: String,
}

impl View for OutboundEmail {
    type V = OutboundEmailView;

    open spec fn view(&self) -> OutboundEmailView {
        OutboundEmailView {
            to: self.to@,
            subject: self.subject@,
            html_content: self.html_content@,
            text_content: self.text_content@,
        }
    }
}

/// Delivery to one recipient failed; the batch goes on without them.
#[derive(Clone, Copy, PartialEq, Eq, Structural, Debug)]
pub struct SendError;

/// The mathematical value of the gateway: what was attempted so far, and
/// which recipients fail.
pub struct GatewayView {
    pub attempts: Seq<OutboundEmailView>,
    pub failing: Seq<Seq<char>>,
}

/// A delivery gateway that records every attempt.
pub struct EmailGateway {
    attempts: Vec<OutboundEmail>,
    failing: Vec<String>,
}

impl View for EmailGateway {
    type V = GatewayView;

    closed spec fn view(&self) -> GatewayView {
        GatewayView {
            attempts: self.attempts@.map_values(|e: OutboundEmail| e@),
            failing: self.failing@.map_values(|s: String| s@),
        }
    }
}

impl EmailGateway {
    /// A gateway that delivers to everyone.
    pub fn new() -> (g: EmailGateway)
        ensures
            g@.attempts == Seq::<OutboundEmailView>::empty(),
            g@.failing == Seq::<Seq<char>>::empty(),
    {
        let g = EmailGateway { attempts: Vec::new(), failing: Vec::new() };
        proof {
            assert(g@.attempts =~= Seq::<OutboundEmailView>::empty());
            assert(g@.failing =~= Seq::<Seq<char>>::empty());
        }
        g
    }

    /// A gateway that fails delivery for exactly the given recipients.
    pub fn with_failures(failing: Vec<String>) -> (g: EmailGateway)
        ensures
            g@.attempts == Seq::<OutboundEmailView>::empty(),
            g@.failing == failing@.map_values(|s: String| s@),
    {
        let g = EmailGateway { attempts: Vec::new(), failing };
        proof {
            assert(g@.attempts =~= Seq::<OutboundEmailView>::empty());
        }
        g
    }

    fn is_failing(&self, to: &str) -> (r: bool)
        ensures
            r == self@.failing.contains(to@),
    {
        let n = self.failing.len();
        let mut i: usize = 0;
        while i < n
            invariant
                n == self.failing@.len(),
                i <= n,
                self@.failing.len() == n,
                forall|j: int| 0 <= j < i ==> (#[trigger] self@.failing[j]) != to@,
            decreases n - i,
        {
            if str_eq(self.failing[i].as_str(), to) {
                proof {
                    assert(self@.failing[i as int] == to@);
                }
                return true;
            }
            i = i + 1;
        }
        proof {
            assert(!self@.failing.contains(to@));
        }
        false
    }

    /// Attempt one delivery. The attempt is recorded whether or not it
    /// succeeds; it fails exactly for the recipients this gateway fails for.
    pub fn send(&mut self, email: OutboundEmail) -> (r: Result<(), SendError>)
        ensures
            final(self)@.attempts == old(self)@.attempts.push(email@),
            final(self)@.failing == old(self)@.failing,
            r is Err <==> old(self)@.failing.contains(email.to@),
    {
        let failed = self.is_failing(email.to.as_str());
        let ghost pre = self@;
        let ghost ev = email@;
        self.attempts.push(email);
        proof {
            assert(self@.attempts =~= pre.attempts.push(ev));
            assert(self@.failing =~= pre.failing);
        }
        if failed {
            Err(SendError)
        } else {
            Ok(())
        }
    }

    /// How many deliveries have been attempted so far.
    pub fn attempt_count(&self) -> (r: usize)
        ensures
            r == self@.attempts.len(),
    {
        self.attempts.len()
    }

    /// The i-th recorded delivery attempt.
    pub fn attempt(&self, i: usize) -> (r: &OutboundEmail)
        requires
            i < self@.attempts.len(),
        ensures
            r@ == self@.attempts[i as int],
    {
        &self.attempts[i]
    }
}

} // verus!
