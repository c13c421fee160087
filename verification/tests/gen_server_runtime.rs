use spawned_concurrency::error::GenServerError;
use spawned_concurrency::tasks::callback::{First, Outcome};
use spawned_concurrency::tasks::gen_server::{
    default_call, default_cast, default_init, default_teardown, CallResponse, CastResponse,
    GenServer, GenServerInMsg, InitResult,
};
use spawned_concurrency::tasks::gen_server_handle::{
    conclude_call, send_message_on, GenServerHandle, Launch, DEFAULT_CALL_TIMEOUT_SECS,
};
use spawned_concurrency::tasks::gen_server_loop::{Command, Event, Inbox, Lifecycle};
use spawned_concurrency::Backend;
use std::future::{poll_fn, Future};
use std::sync::{Arc, Mutex};
use std::task::Poll;
use std::time::Duration;
use tokio::runtime::{Builder, Handle, Runtime};
use tokio::sync::mpsc::{unbounded_channel, UnboundedReceiver};
use tokio::time::{sleep, timeout};
use tokio_util::sync::CancellationToken;

#[derive(Clone, Debug)]
struct Unused;

/// The callbacks of a server, with the library's defaults.
trait Callbacks: GenServer + 'static {
    fn init(
        self,
        _handle: &GenServerHandle<Self>,
    ) -> impl Future<Output = Result<InitResult<Self>, Self::Error>> + Send {
        async { default_init(self) }
    }

    fn handle_call(
        &mut self,
        _message: Self::CallMsg,
        _handle: &GenServerHandle<Self>,
    ) -> impl Future<Output = CallResponse<Self>> + Send {
        async { default_call() }
    }

    fn handle_cast(
        &mut self,
        _message: Self::CastMsg,
        _handle: &GenServerHandle<Self>,
    ) -> impl Future<Output = CastResponse> + Send {
        async { default_cast() }
    }

    fn teardown(
        self,
        _handle: &GenServerHandle<Self>,
    ) -> impl Future<Output = Result<(), Self::Error>> + Send {
        async { default_teardown::<Self>() }
    }
}

async fn receive<G: Callbacks>(
    lifecycle: &mut Lifecycle<G>,
    inbox: &mut Inbox<G>,
    token: &CancellationToken,
    rx: &mut UnboundedReceiver<GenServerInMsg<G>>,
) -> Event<G> {
    let mut cancelled = Box::pin(token.cancelled());
    poll_fn(move |context| {
        if cancelled.as_mut().poll(context).is_ready() {
            inbox.cancelled = true;
        }
        while !inbox.mailbox.is_closed() {
            match rx.poll_recv(context) {
                Poll::Ready(Some(message)) => inbox.mailbox.put(message),
                Poll::Ready(None) => inbox.mailbox.close(),
                Poll::Pending => break,
            }
        }
        match lifecycle.receive(inbox) {
            Some(event) => Poll::Ready(event),
            None => Poll::Pending,
        }
    })
    .await
}

async fn run<G: Callbacks>(launch: Launch<G>) {
    let own = launch.own;
    let mut rx = launch.rx.into_receiver();
    let token = own.cancellation_token();
    let mut inbox = Inbox::new();
    let mut lifecycle = launch.lifecycle;
    let mut command = launch.command;
    loop {
        let event = match command {
            Command::Init { server } => Event::Initialized {
                result: server.init(&own).await,
            },
            Command::Receive => receive(&mut lifecycle, &mut inbox, &token, &mut rx).await,
            Command::HandleCall {
                mut server,
                message,
            } => {
                let answer = server.handle_call(message, &own).await;
                Event::CallHandled {
                    server,
                    outcome: Outcome::Returned(answer),
                }
            }
            Command::HandleCast {
                mut server,
                message,
            } => {
                let answer = server.handle_cast(message, &own).await;
                Event::CastHandled {
                    server,
                    outcome: Outcome::Returned(answer),
                }
            }
            Command::Teardown { server } => Event::TornDown {
                result: server.teardown(&own).await,
            },
            Command::Finish { result } => {
                assert_eq!(result, Ok(()));
                return;
            }
        };
        assert!(lifecycle.is_awaiting(&event));
        let advance = own.advance(lifecycle, event);
        lifecycle = advance.lifecycle;
        command = advance.command;
    }
}

fn start<G: Callbacks>(server: G, backend: Backend) -> GenServerHandle<G> {
    let launch = GenServerHandle::new(server);
    let handle = launch.handle.clone();
    match backend {
        Backend::Async => {
            tokio::spawn(run(launch));
        }
        Backend::Blocking => {
            let runtime = Handle::current();
            tokio::task::spawn_blocking(move || runtime.block_on(run(launch)));
        }
        Backend::Thread => {
            // A runtime of its own, with one thread of its own.
            let runtime = Builder::new_multi_thread()
                .worker_threads(1)
                .enable_time()
                .build()
                .unwrap();
            let running = runtime.spawn(run(launch));
            tokio::spawn(async move {
                let _ = running.await;
                runtime.shutdown_background();
            });
        }
    }
    handle
}

async fn call_with_timeout<G: Callbacks>(
    handle: &GenServerHandle<G>,
    message: G::CallMsg,
    duration: Duration,
) -> Result<G::OutMsg, GenServerError> {
    let call = handle.begin_call(message).map_err(|refused| refused.error)?;
    conclude_call(timeout(duration, call.reply.into_receiver()).await)
}

async fn call<G: Callbacks>(
    handle: &GenServerHandle<G>,
    message: G::CallMsg,
) -> Result<G::OutMsg, GenServerError> {
    call_with_timeout(
        handle,
        message,
        Duration::from_secs(DEFAULT_CALL_TIMEOUT_SECS),
    )
    .await
}

const TIMEOUT_DURATION: Duration = Duration::from_millis(100);

struct SomeTask;

#[derive(Clone)]
enum SomeTaskCallMsg {
    SlowOperation,
    FastOperation,
}

impl GenServer for SomeTask {
    type CallMsg = SomeTaskCallMsg;
    type CastMsg = Unused;
    type OutMsg = Unused;
    type Error = Unused;
}

impl Callbacks for SomeTask {
    async fn handle_call(
        &mut self,
        message: Self::CallMsg,
        _handle: &GenServerHandle<Self>,
    ) -> CallResponse<Self> {
        match message {
            SomeTaskCallMsg::SlowOperation => {
                sleep(TIMEOUT_DURATION * 2).await;
                CallResponse::Reply(Unused)
            }
            SomeTaskCallMsg::FastOperation => {
                sleep(TIMEOUT_DURATION / 2).await;
                CallResponse::Reply(Unused)
            }
        }
    }
}

#[test]
fn gen_server_unresolving_task_times_out() {
    let runtime = Runtime::new().unwrap();
    runtime.block_on(async move {
        let unresolving_task = start(SomeTask, Backend::Async);

        let result = call_with_timeout(
            &unresolving_task,
            SomeTaskCallMsg::FastOperation,
            TIMEOUT_DURATION,
        )
        .await;
        assert!(matches!(result, Ok(Unused)));

        let result = call_with_timeout(
            &unresolving_task,
            SomeTaskCallMsg::SlowOperation,
            TIMEOUT_DURATION,
        )
        .await;
        assert!(matches!(result, Err(GenServerError::CallTimeout)));
    });
}

struct SomeTaskThatFailsOnInit {
    sender_channel: Arc<Mutex<UnboundedReceiver<u8>>>,
}

impl SomeTaskThatFailsOnInit {
    fn new(sender_channel: Arc<Mutex<UnboundedReceiver<u8>>>) -> Self {
        Self { sender_channel }
    }
}

impl GenServer for SomeTaskThatFailsOnInit {
    type CallMsg = Unused;
    type CastMsg = Unused;
    type OutMsg = Unused;
    type Error = Unused;
}

impl Callbacks for SomeTaskThatFailsOnInit {
    async fn init(self, _handle: &GenServerHandle<Self>) -> Result<InitResult<Self>, Self::Error> {
        Ok(InitResult::NoSuccess(self))
    }

    async fn teardown(self, _handle: &GenServerHandle<Self>) -> Result<(), Self::Error> {
        self.sender_channel.lock().unwrap().close();
        Ok(())
    }
}

#[test]
fn gen_server_task_fails_with_intermediate_state() {
    let runtime = Runtime::new().unwrap();
    runtime.block_on(async move {
        let (rx, tx) = unbounded_channel::<u8>();
        let sender_channel = Arc::new(Mutex::new(tx));
        let _task = start(SomeTaskThatFailsOnInit::new(sender_channel), Backend::Async);

        sleep(Duration::from_secs(1)).await;

        assert!(rx.is_closed())
    });
}

struct Counter {
    count: u64,
}

#[derive(Clone)]
enum CounterCall {
    Get,
    Increment,
    Stop,
}

#[derive(Clone)]
enum CounterCast {
    Increment,
}

impl GenServer for Counter {
    type CallMsg = CounterCall;
    type CastMsg = CounterCast;
    type OutMsg = u64;
    type Error = ();
}

impl Callbacks for Counter {
    async fn handle_call(
        &mut self,
        message: Self::CallMsg,
        _: &GenServerHandle<Self>,
    ) -> CallResponse<Self> {
        match message {
            CounterCall::Get => CallResponse::Reply(self.count),
            CounterCall::Increment => {
                self.count += 1;
                CallResponse::Reply(self.count)
            }
            CounterCall::Stop => CallResponse::Stop(self.count),
        }
    }

    async fn handle_cast(
        &mut self,
        message: Self::CastMsg,
        _: &GenServerHandle<Self>,
    ) -> CastResponse {
        match message {
            CounterCast::Increment => {
                self.count += 1;
                CastResponse::NoReply
            }
        }
    }
}

#[test]
fn backend_async_handles_call_and_cast() {
    let runtime = Runtime::new().unwrap();
    runtime.block_on(async move {
        let counter = start(Counter { count: 0 }, Backend::Async);

        let result = call(&counter, CounterCall::Get).await.unwrap();
        assert_eq!(result, 0);

        let result = call(&counter, CounterCall::Increment).await.unwrap();
        assert_eq!(result, 1);

        counter
            .cast(CounterCast::Increment)
            .map_err(|refused| refused.error)
            .unwrap();
        sleep(Duration::from_millis(10)).await;

        let result = call(&counter, CounterCall::Get).await.unwrap();
        assert_eq!(result, 2);

        let final_count = call(&counter, CounterCall::Stop).await.unwrap();
        assert_eq!(final_count, 2);
    });
}

#[test]
fn backend_blocking_handles_call_and_cast() {
    let runtime = Runtime::new().unwrap();
    runtime.block_on(async move {
        let counter = start(Counter { count: 0 }, Backend::Blocking);

        let result = call(&counter, CounterCall::Get).await.unwrap();
        assert_eq!(result, 0);

        let result = call(&counter, CounterCall::Increment).await.unwrap();
        assert_eq!(result, 1);

        counter
            .cast(CounterCast::Increment)
            .map_err(|refused| refused.error)
            .unwrap();
        sleep(Duration::from_millis(50)).await;

        let result = call(&counter, CounterCall::Get).await.unwrap();
        assert_eq!(result, 2);

        let final_count = call(&counter, CounterCall::Stop).await.unwrap();
        assert_eq!(final_count, 2);
    });
}

#[test]
fn backend_thread_handles_call_and_cast() {
    let runtime = Runtime::new().unwrap();
    runtime.block_on(async move {
        let counter = start(Counter { count: 0 }, Backend::Thread);

        let result = call(&counter, CounterCall::Get).await.unwrap();
        assert_eq!(result, 0);

        let result = call(&counter, CounterCall::Increment).await.unwrap();
        assert_eq!(result, 1);

        counter
            .cast(CounterCast::Increment)
            .map_err(|refused| refused.error)
            .unwrap();
        sleep(Duration::from_millis(50)).await;

        let result = call(&counter, CounterCall::Get).await.unwrap();
        assert_eq!(result, 2);

        let final_count = call(&counter, CounterCall::Stop).await.unwrap();
        assert_eq!(final_count, 2);
        sleep(Duration::from_millis(200)).await;
    });
}

#[test]
fn multiple_backends_concurrent() {
    let runtime = Runtime::new().unwrap();
    runtime.block_on(async move {
        let async_counter = start(Counter { count: 0 }, Backend::Async);
        let blocking_counter = start(Counter { count: 100 }, Backend::Blocking);
        let thread_counter = start(Counter { count: 200 }, Backend::Thread);

        call(&async_counter, CounterCall::Increment).await.unwrap();
        call(&blocking_counter, CounterCall::Increment)
            .await
            .unwrap();
        call(&thread_counter, CounterCall::Increment).await.unwrap();

        let async_val = call(&async_counter, CounterCall::Get).await.unwrap();
        let blocking_val = call(&blocking_counter, CounterCall::Get).await.unwrap();
        let thread_val = call(&thread_counter, CounterCall::Get).await.unwrap();

        assert_eq!(async_val, 1);
        assert_eq!(blocking_val, 101);
        assert_eq!(thread_val, 201);

        call(&async_counter, CounterCall::Stop).await.unwrap();
        call(&blocking_counter, CounterCall::Stop).await.unwrap();
        call(&thread_counter, CounterCall::Stop).await.unwrap();
        sleep(Duration::from_millis(200)).await;
    });
}

#[test]
fn backend_default_works_in_start() {
    let runtime = Runtime::new().unwrap();
    runtime.block_on(async move {
        let counter = start(Counter { count: 42 }, Backend::default());

        let result = call(&counter, CounterCall::Get).await.unwrap();
        assert_eq!(result, 42);

        call(&counter, CounterCall::Stop).await.unwrap();
    });
}

const A_WHILE: Duration = Duration::from_millis(400);

#[test]
fn a_server_that_stopped_is_gone() {
    let runtime = Runtime::new().unwrap();
    runtime.block_on(async {
        let counter = start(Counter { count: 4 }, Backend::Async);
        assert_eq!(call(&counter, CounterCall::Stop).await, Ok(4));
        sleep(A_WHILE).await;
        assert!(counter.cancellation_token().is_cancelled());
        assert!(counter.sender().is_closed());
        assert!(matches!(
            counter.cast(CounterCast::Increment),
            Err(refused) if refused.error == GenServerError::Server
                && !refused.posted.is_accepted()
        ));
        assert_eq!(
            call(&counter, CounterCall::Get).await,
            Err(GenServerError::Server)
        );
    });
}

#[test]
fn a_call_that_is_not_handled_is_answered_and_stops() {
    let runtime = Runtime::new().unwrap();
    runtime.block_on(async {
        let server = start(
            SomeTaskThatFailsOnCall {},
            Backend::Async,
        );
        assert!(matches!(
            call(&server, Unused).await,
            Err(GenServerError::CallMsgUnused)
        ));
        sleep(A_WHILE).await;
        assert!(server.cancellation_token().is_cancelled());
    });
}

/// Provides no callback.
struct SomeTaskThatFailsOnCall {}

impl GenServer for SomeTaskThatFailsOnCall {
    type CallMsg = Unused;
    type CastMsg = Unused;
    type OutMsg = Unused;
    type Error = Unused;
}

impl Callbacks for SomeTaskThatFailsOnCall {}

#[test]
fn cancelling_the_token_stops_a_server() {
    let runtime = Runtime::new().unwrap();
    runtime.block_on(async {
        let counter = start(Counter { count: 0 }, Backend::Async);
        let copy = counter.clone();
        assert_eq!(call(&copy, CounterCall::Increment).await, Ok(1));
        copy.cancellation_token().cancel();
        sleep(A_WHILE).await;
        assert!(counter.tx.is_closed());
    });
}

#[test]
fn a_signal_sends_a_server_a_message_unless_it_stopped() {
    let runtime = Runtime::new().unwrap();
    runtime.block_on(async {
        let counter = start(Counter { count: 0 }, Backend::Async);
        let sent = send_message_on(&counter, First::Signal, CounterCast::Increment);
        assert!(sent.unwrap().is_ok_and(|posted| posted.is_accepted()));
        assert!(send_message_on(&counter, First::Cancelled, CounterCast::Increment).is_none());
        assert_eq!(call(&counter, CounterCall::Stop).await, Ok(1));
        sleep(A_WHILE).await;
        assert!(matches!(
            send_message_on(&counter, First::Signal, CounterCast::Increment),
            Some(Err(refused)) if refused.error == GenServerError::Server
        ));
    });
}
