//! Notification mails: the payloads the platform sends mail about, each
//! rendering itself into one plain mail.

use vstd::prelude::*;

verus! {

/// The ghost shape of a rendered mail.
pub struct SimpleMailView {
    pub to: Seq<char>,
    pub subject: Seq<char>,
    pub text: Seq<char>,
}

/// One plain mail: an address, a subject and a body.
#[derive(Clone, Debug)]
pub struct SimpleMail {
    pub to: String,
    pub subject: String,
    pub text: String,
}

impl View for SimpleMail {
    type V = SimpleMailView;

    open spec fn view(&self) -> SimpleMailView {
        SimpleMailView { to: self.to@, subject: self.subject@, text: self.text@ }
    }
}

/// The addressee of a mail.
#[derive(Clone, Debug)]
pub struct EmailUser {
    pub email: String,
    pub first_name: String,
    pub last_name: String,
}

/// A payload that renders itself into one mail.
pub trait Email {
    /// The mail this payload renders to.
    spec fn send_mail_spec(&self) -> SimpleMailView;

    /// Renders this payload into the mail to send.
    fn into_send_mail(self) -> (r: SimpleMail)
        where Self: Sized
        ensures
            r@ == self.send_mail_spec(),
    ;
}

/// Mail for a user whose order changed state.
#[derive(Clone, Debug)]
pub struct OrderUpdateStateForUser {
    pub user: EmailUser,
    pub order_slug: String,
    pub order_state: String,
    pub cluster_url: String,
}

impl Email for OrderUpdateStateForUser {
    open spec fn send_mail_spec(&self) -> SimpleMailView {
        SimpleMailView {
            to: self.user.email@,
            subject: "The order "@ + self.order_slug@ + " status"@,
            text: "Orders' "@ + self.order_slug@ + " state is '"@ + self.order_state@
                + "' now. You can view current info about your order on <a href=\""@
                + self.cluster_url@ + "/profile/orders/"@ + self.order_slug@
                + "\">this page</a>."@,
        }
    }

    fn into_send_mail(self) -> (r: SimpleMail) {
        let mut subject = String::from_str("The order ");
        subject.append(self.order_slug.as_str());
        subject.append(" status");
        let mut text = String::from_str("Orders' ");
        text.append(self.order_slug.as_str());
        text.append(" state is '");
        text.append(self.order_state.as_str());
        text.append("' now. You can view current info about your order on <a href=\"");
        text.append(self.cluster_url.as_str());
        text.append("/profile/orders/");
        text.append(self.order_slug.as_str());
        text.append("\">this page</a>.");
        let r = SimpleMail { to: self.user.email, subject, text };
        proof {
            assert(r@.subject =~= self.send_mail_spec().subject);
            assert(r@.text =~= self.send_mail_spec().text);
        }
        r
    }
}

/// Mail for a store one of whose orders changed state.
#[derive(Clone, Debug)]
pub struct OrderUpdateStateForStore {
    pub store_email: String,
    pub order_slug: String,
    pub order_state: String,
    pub cluster_url: String,
    pub store_id: String,
}

impl Email for OrderUpdateStateForStore {
    open spec fn send_mail_spec(&self) -> SimpleMailView {
        SimpleMailView {
            to: self.store_email@,
            subject: "The order "@ + self.order_slug@ + " status"@,
            text: "Orders' "@ + self.order_slug@ + " state is '"@ + self.order_state@
                + "' now. You can view current order info on <a href=\""@ + self.cluster_url@
                + "/manage/store/"@ + self.store_id@ + "/orders/"@ + self.order_slug@
                + "\">this page</a>."@,
        }
    }

    fn into_send_mail(self) -> (r: SimpleMail) {
        let mut subject = String::from_str("The order ");
        subject.append(self.order_slug.as_str());
        subject.append(" status");
        let mut text = String::from_str("Orders' ");
        text.append(self.order_slug.as_str());
        text.append(" state is '");
        text.append(self.order_state.as_str());
        text.append("' now. You can view current order info on <a href=\"");
        text.append(self.cluster_url.as_str());
        text.append("/manage/store/");
        text.append(self.store_id.as_str());
        text.append("/orders/");
        text.append(self.order_slug.as_str());
        text.append("\">this page</a>.");
        let r = SimpleMail { to: self.store_email, subject, text };
        proof {
            assert(r@.subject =~= self.send_mail_spec().subject);
            assert(r@.text =~= self.send_mail_spec().text);
        }
        r
    }
}

/// Mail for a user who created an order.
#[derive(Clone, Debug)]
pub struct OrderCreateForUser {
    pub user: EmailUser,
    pub order_slug: String,
    pub cluster_url: String,
}

impl Email for OrderCreateForUser {
    open spec fn send_mail_spec(&self) -> SimpleMailView {
        SimpleMailView {
            to: self.user.email@,
            subject: "New order "@ + self.order_slug@ + "."@,
            text: "Order "@ + self.order_slug@
                + " was created. You can view current info about your order on <a href=\""@
                + self.cluster_url@ + "/profile/orders/"@ + self.order_slug@
                + "\">this page</a>."@,
        }
    }

    fn into_send_mail(self) -> (r: SimpleMail) {
        let mut subject = String::from_str("New order ");
        subject.append(self.order_slug.as_str());
        subject.append(".");
        let mut text = String::from_str("Order ");
        text.append(self.order_slug.as_str());
        text.append(" was created. You can view current info about your order on <a href=\"");
        text.append(self.cluster_url.as_str());
        text.append("/profile/orders/");
        text.append(self.order_slug.as_str());
        text.append("\">this page</a>.");
        let r = SimpleMail { to: self.user.email, subject, text };
        proof {
            assert(r@.subject =~= self.send_mail_spec().subject);
            assert(r@.text =~= self.send_mail_spec().text);
        }
        r
    }
}

/// Mail for a store that received an order.
#[derive(Clone, Debug)]
pub struct OrderCreateForStore {
    pub store_email: String,
    pub order_slug: String,
    pub cluster_url: String,
    pub store_id: String,
}

impl Email for OrderCreateForStore {
    open spec fn send_mail_spec(&self) -> SimpleMailView {
        SimpleMailView {
            to: self.store_email@,
            subject: "New order "@ + self.order_slug@ + "."@,
            text: "Order "@ + self.order_slug@
                + " was created. You can view current order info on <a href=\""@
                + self.cluster_url@ + "/manage/store/"@ + self.store_id@ + "/orders/"@
                + self.order_slug@ + "\">this page</a>."@,
        }
    }

    fn into_send_mail(self) -> (r: SimpleMail) {
        let mut subject = String::from_str("New order ");
        subject.append(self.order_slug.as_str());
        subject.append(".");
        let mut text = String::from_str("Order ");
        text.append(self.order_slug.as_str());
        text.append(" was created. You can view current order info on <a href=\"");
        text.append(self.cluster_url.as_str());
        text.append("/manage/store/");
        text.append(self.store_id.as_str());
        text.append("/orders/");
        text.append(self.order_slug.as_str());
        text.append("\">this page</a>.");
        let r = SimpleMail { to: self.store_email, subject, text };
        proof {
            assert(r@.subject =~= self.send_mail_spec().subject);
            assert(r@.text =~= self.send_mail_spec().text);
        }
        r
    }
}

/// Mail asking a user to verify their address.
#[derive(Clone, Debug)]
pub struct EmailVerificationForUser {
    pub user: EmailUser,
    pub verify_email_path: String,
    pub token: String,
}

impl Email for EmailVerificationForUser {
    open spec fn send_mail_spec(&self) -> SimpleMailView {
        SimpleMailView {
            to: self.user.email@,
            subject: "Verify your account on Storiqa"@,
            text: self.verify_email_path@ + "/"@ + self.token@,
        }
    }

    fn into_send_mail(self) -> (r: SimpleMail) {
        let subject = String::from_str("Verify your account on Storiqa");
        let mut text = self.verify_email_path;
        text.append("/");
        text.append(self.token.as_str());
        let r = SimpleMail { to: self.user.email, subject, text };
        proof {
            assert(r@.text =~= self.send_mail_spec().text);
        }
        r
    }
}

/// Mail carrying a password reset link.
#[derive(Clone, Debug)]
pub struct PasswordResetForUser {
    pub user: EmailUser,
    pub reset_password_path: String,
    pub token: String,
}

impl Email for PasswordResetForUser {
    open spec fn send_mail_spec(&self) -> SimpleMailView {
        SimpleMailView {
            to: self.user.email@,
            subject: "Password reset"@,
            text: self.reset_password_path@ + "/"@ + self.token@,
        }
    }

    fn into_send_mail(self) -> (r: SimpleMail) {
        let subject = String::from_str("Password reset");
        let mut text = self.reset_password_path;
        text.append("/");
        text.append(self.token.as_str());
        let r = SimpleMail { to: self.user.email, subject, text };
        proof {
            assert(r@.text =~= self.send_mail_spec().text);
        }
        r
    }
}

/// Mail confirming a completed password reset.
#[derive(Clone, Debug)]
pub struct ApplyPasswordResetForUser {
    pub user: EmailUser,
}

impl Email for ApplyPasswordResetForUser {
    open spec fn send_mail_spec(&self) -> SimpleMailView {
        SimpleMailView {
            to: self.user.email@,
            subject: "Successful password reset"@,
            text: "Password for linked account has been successfully reset."@,
        }
    }

    fn into_send_mail(self) -> (r: SimpleMail) {
        SimpleMail {
            to: self.user.email,
            subject: String::from_str("Successful password reset"),
            text: String::from_str("Password for linked account has been successfully reset."),
        }
    }
}

/// Mail confirming a verified address.
#[derive(Clone, Debug)]
pub struct ApplyEmailVerificationForUser {
    pub user: EmailUser,
}

impl Email for ApplyEmailVerificationForUser {
    open spec fn send_mail_spec(&self) -> SimpleMailView {
        SimpleMailView {
            to: self.user.email@,
            subject: "Successful registration"@,
            text: "Email for linked account has been verified."@,
        }
    }

    fn into_send_mail(self) -> (r: SimpleMail) {
        SimpleMail {
            to: self.user.email,
            subject: String::from_str("Successful registration"),
            text: String::from_str("Email for linked account has been verified."),
        }
    }
}

/// The mail templates the platform knows.
#[derive(Clone, Copy, Debug, PartialEq, Eq, Structural)]
pub enum TemplateVariant {
    OrderUpdateStateForUser,
    OrderUpdateStateForStore,
    OrderCreateForUser,
    OrderCreateForStore,
    EmailVerificationForUser,
    PasswordResetForUser,
    ApplyPasswordResetForUser,
    ApplyEmailVerificationForUser,
}

} // verus!
