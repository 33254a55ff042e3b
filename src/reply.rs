use vstd::prelude::*;

verus! {

/// A user-facing notice sent back into the chat.
#[derive(Clone, Copy, Debug, PartialEq, Eq, Structural)]
pub enum Reply {
    /// The bot only works in direct messages.
    DirectOnly,
    /// Static greeting that explains the commands.
    Welcome,
    /// The open command came without a title.
    MissingTitle,
    /// A ticket was opened; further messages are relayed.
    TicketOpened,
    /// The chat already has an active ticket.
    TicketAlreadyOpen,
    /// The backend could not open the ticket.
    OpenFailed,
    /// The ticket was closed.
    TicketClosed,
    /// There is no ticket to close.
    TicketNotFound,
    /// The backend could not close the ticket.
    CloseFailed,
    /// A message arrived while no ticket is active.
    NoActiveTicket,
    /// A message could not be relayed.
    RelayFailed,
}

/// The text of each notice.
pub open spec fn reply_text(r: Reply) -> Seq<char> {
    match r {
        Reply::DirectOnly => "Bot ini hanya bisa dijalankan di dalam pesan langsung atau DM."@,
        Reply::Welcome => "Halo, selamat datang di Customer Service Icommits! Ada yang bisa saya bantu?\n\nUntuk membuat tiket baru, kirim /open-ticket <deskripsi singkat permasalahan>\nJika sudah selesai, anda bisa kirim /close-ticket untuk menutupnya."@,
        Reply::MissingTitle => "Mohon maaf, tolong ketik judul di setelah '/open-ticket'."@,
        Reply::TicketOpened => "Terima kasih, pesan anda berikutnya akan dikirimkan ke tim Customer Service kami."@,
        Reply::TicketAlreadyOpen => "Mohon maaf, saat ini anda sedang berada dalam tiket aktif. Mohon untuk menutup tiket ini jika ingin membuka tiket baru."@,
        Reply::OpenFailed => "Mohon maaf, terjadi kesalahan ketika membuka tiket. Mohon coba lagi di lain waktu."@,
        Reply::TicketClosed => "Tiket sudah ditutup, terima kasih sudah menggunakan layanan kami."@,
        Reply::TicketNotFound => "Mohon maaf, tiket yang dimaksud tidak ada. Mohon coba lagi di lain waktu."@,
        Reply::CloseFailed => "Mohon maaf, terjadi kesalahan ketika menutup tiket. Mohon coba lagi di lain waktu."@,
        Reply::NoActiveTicket => "Mohon untuk buka tiket baru."@,
        Reply::RelayFailed => "Mohon maaf, telah terjadi kesalahan. Mohon coba lagi beberapa saat nanti."@,
    }
}

impl Reply {
    /// The text of the notice.
    pub fn text(&self) -> (r: String)
        ensures
            r@ == reply_text(*self),
    {
        match self {
            Reply::DirectOnly => {
                proof { reveal_strlit("Bot ini hanya bisa dijalankan di dalam pesan langsung atau DM."); }
                String::from_str("Bot ini hanya bisa dijalankan di dalam pesan langsung atau DM.")
            },
            Reply::Welcome => {
                proof { reveal_strlit("Halo, selamat datang di Customer Service Icommits! Ada yang bisa saya bantu?\n\nUntuk membuat tiket baru, kirim /open-ticket <deskripsi singkat permasalahan>\nJika sudah selesai, anda bisa kirim /close-ticket untuk menutupnya."); }
                String::from_str("Halo, selamat datang di Customer Service Icommits! Ada yang bisa saya bantu?\n\nUntuk membuat tiket baru, kirim /open-ticket <deskripsi singkat permasalahan>\nJika sudah selesai, anda bisa kirim /close-ticket untuk menutupnya.")
            },
            Reply::MissingTitle => {
                proof { reveal_strlit("Mohon maaf, tolong ketik judul di setelah '/open-ticket'."); }
                String::from_str("Mohon maaf, tolong ketik judul di setelah '/open-ticket'.")
            },
            Reply::TicketOpened => {
                proof { reveal_strlit("Terima kasih, pesan anda berikutnya akan dikirimkan ke tim Customer Service kami."); }
                String::from_str("Terima kasih, pesan anda berikutnya akan dikirimkan ke tim Customer Service kami.")
            },
            Reply::TicketAlreadyOpen => {
                proof { reveal_strlit("Mohon maaf, saat ini anda sedang berada dalam tiket aktif. Mohon untuk menutup tiket ini jika ingin membuka tiket baru."); }
                String::from_str("Mohon maaf, saat ini anda sedang berada dalam tiket aktif. Mohon untuk menutup tiket ini jika ingin membuka tiket baru.")
            },
            Reply::OpenFailed => {
                proof { reveal_strlit("Mohon maaf, terjadi kesalahan ketika membuka tiket. Mohon coba lagi di lain waktu."); }
                String::from_str("Mohon maaf, terjadi kesalahan ketika membuka tiket. Mohon coba lagi di lain waktu.")
            },
            Reply::TicketClosed => {
                proof { reveal_strlit("Tiket sudah ditutup, terima kasih sudah menggunakan layanan kami."); }
                String::from_str("Tiket sudah ditutup, terima kasih sudah menggunakan layanan kami.")
            },
            Reply::TicketNotFound => {
                proof { reveal_strlit("Mohon maaf, tiket yang dimaksud tidak ada. Mohon coba lagi di lain waktu."); }
                String::from_str("Mohon maaf, tiket yang dimaksud tidak ada. Mohon coba lagi di lain waktu.")
            },
            Reply::CloseFailed => {
                proof { reveal_strlit("Mohon maaf, terjadi kesalahan ketika menutup tiket. Mohon coba lagi di lain waktu."); }
                String::from_str("Mohon maaf, terjadi kesalahan ketika menutup tiket. Mohon coba lagi di lain waktu.")
            },
            Reply::NoActiveTicket => {
                proof { reveal_strlit("Mohon untuk buka tiket baru."); }
                String::from_str("Mohon untuk buka tiket baru.")
            },
            Reply::RelayFailed => {
                proof { reveal_strlit("Mohon maaf, telah terjadi kesalahan. Mohon coba lagi beberapa saat nanti."); }
                String::from_str("Mohon maaf, telah terjadi kesalahan. Mohon coba lagi beberapa saat nanti.")
            },
        }
    }
}

} // verus!
