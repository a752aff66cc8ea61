# gtk_qq

The logic of an unofficial QQ client, written in Verus and verified.

`src/` is the library:

- `message`: the pieces of a chat message and the text shown for them;
- `decimal`: decimal text of integers and booleans, as `to_string` writes it and `parse` reads it;
- `store`: the rows of the local database, the stable ordering of friend groups, and the decisions on the stored database version;
- `account`: the account and login switches remembered between runs;
- `chatroom`, `chats`, `main_page`: chatroom histories, the sidebar's chat list and the main page that keeps both in step;
- `contacts`: friends by friend group, and searching friends and groups;
- `login`: the login page, the login server's loop, login responses, the captcha and device lock windows and the QR-code login loop;
- `qr`: QR-code pictures of links, drawn by the `qrcode-png` crate;
- `avatar`, `handler`, `widgets`: avatar locations, routing of incoming messages, the link copier.

`app/` is a console front end that performs the network, database and file work the library's decisions call for.
